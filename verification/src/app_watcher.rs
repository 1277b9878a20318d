//! The notification bridge: the class of the observer, the process-wide
//! registry of watcher sessions, and the trampolines that turn what the
//! runtime announces into events on a channel.
//!
//! A session passes through three states. `Unregistered`: the runtime does
//! not know the observer's class. `Registered`: the class is declared, once
//! for the whole process. `Running`: an observer exists, its sender is in
//! the registry, and it is subscribed to all seven phases. Nothing leads
//! back.

use vstd::prelude::*;
use crossbeam::channel::Sender;
use crate::app_notification::{AppNotification, AppNotificationView, NotificationReply};
use crate::cocoa_type::CocoaType;
use crate::notification_center::{AddObserver, RemoveObserver};
use crate::notification_type::NotificationType;
use crate::object::Id;
use crate::workspace::Workspace;

verus! {

/// The sending half of a `crossbeam` channel.
#[verifier::external_type_specification]
#[verifier::external_body]
#[verifier::reject_recursive_types(T)]
pub struct ExSender<T>(Sender<T>);

/// The capacity that the channel of `sender` was made with: none for an
/// unbounded channel.
pub uninterp spec fn capacity(sender: Sender<AppNotification>) -> Option<usize>;

/// `crossbeam::channel::Sender::capacity`: the capacity that the channel
/// was made with, none for an unbounded one. The contract gives the result
/// its name and claims nothing else.
#[verifier::external_body]
fn sender_capacity(sender: &Sender<AppNotification>) -> (limit: Option<usize>)
    ensures
        limit == capacity(*sender),
{
    sender.capacity()
}

/// `crossbeam::channel::Sender::send`, on an unbounded channel only, where
/// it does not wait for room. The contract claims one thing: where the
/// call fails, which it does when the channel is disconnected, the error
/// holds the message that was to be sent, and that message comes back.
#[verifier::external_body]
fn send(sender: &Sender<AppNotification>, event: AppNotification) -> (sent: Result<(), AppNotification>)
    requires
        capacity(*sender) is None,
    ensures
        sent is Err ==> sent->Err_0 == event,
{
    match sender.send(event) {
        Ok(()) => Ok(()),
        Err(error) => Err(error.into_inner()),
    }
}

/// The wrapper of the foreign object that observes the workspace.
pub struct NSAppWatcher {
    ptr: Id,
}

impl NSAppWatcher {
    #[verifier::type_invariant]
    spec fn holds_an_object(&self) -> bool {
        !self.ptr.null()
    }
}

impl CocoaType for NSAppWatcher {
    closed spec fn handle(&self) -> Id {
        self.ptr
    }

    open spec fn declared_name() -> Seq<char> {
        "NSAppWatcher"@
    }

    fn from_ptr(ptr: Id) -> (wrapper: Option<Self>) {
        if ptr.is_null() {
            None
        } else {
            Some(Self { ptr })
        }
    }

    fn ptr(&self) -> (ptr: Id) {
        proof {
            use_type_invariant(self);
        }
        self.ptr
    }

    fn class_name() -> (name: &'static str) {
        "NSAppWatcher"
    }

    proof fn lemma_handle_determines_wrapper(a: Self, b: Self) {
    }
}

/// A method of the observer's class: the selector it answers to, and the
/// phase whose notifications it receives.
#[derive(Clone, Copy, Debug, PartialEq, Eq)]
pub struct Trampoline {
    pub selector: &'static str,
    pub notification_type: NotificationType,
}

/// The declaration of the observer's class: its name, the class it
/// extends, its methods, and the name of the slot in which an instance
/// keeps the number of its sender in the registry.
#[derive(Clone, Debug, PartialEq, Eq)]
pub struct ClassDeclaration {
    pub name: &'static str,
    pub superclass: &'static str,
    pub methods: Vec<Trampoline>,
    pub ivar: &'static str,
}

/// The phases in the order in which their trampolines are declared.
pub open spec fn declared_phases() -> Seq<NotificationType> {
    seq![
        NotificationType::Launching,
        NotificationType::Launched,
        NotificationType::Terminated,
        NotificationType::Hidden,
        NotificationType::Unhidden,
        NotificationType::Activated,
        NotificationType::Deactivated,
    ]
}

/// The phases in the order in which an observer subscribes to them, and
/// unsubscribes from them.
pub open spec fn observed_phases() -> Seq<NotificationType> {
    seq![
        NotificationType::Activated,
        NotificationType::Deactivated,
        NotificationType::Hidden,
        NotificationType::Unhidden,
        NotificationType::Launched,
        NotificationType::Launching,
        NotificationType::Terminated,
    ]
}

impl ClassDeclaration {
    /// Whether this is the declaration of the observer's class: named as
    /// the wrapper is, extending `NSObject`, with one trampoline for each
    /// phase under that phase's selector, and the slot `channelSenderPtr`.
    pub open spec fn is_watcher_class(&self) -> bool {
        &&& self.name@ == NSAppWatcher::declared_name()
        &&& self.superclass@ == "NSObject"@
        &&& self.ivar@ == "channelSenderPtr"@
        &&& self.methods@.len() == declared_phases().len()
        &&& forall|i: int|
            0 <= i < self.methods@.len() ==> {
                &&& (#[trigger] self.methods@[i]).notification_type == declared_phases()[i]
                &&& self.methods@[i].selector@ == declared_phases()[i].selector()
            }
    }
}

/// Each phase is in `phases` once and only once.
pub open spec fn each_phase_once(phases: Seq<NotificationType>) -> bool {
    &&& phases.no_duplicates()
    &&& forall|phase: NotificationType| #[trigger] phases.contains(phase)
}

/// The observer's class has one trampoline for each phase, and no two for
/// one phase.
pub proof fn lemma_one_trampoline_per_phase()
    ensures
        declared_phases().len() == 7,
        each_phase_once(declared_phases()),
{
    let phases = declared_phases();
    assert forall|phase: NotificationType| #[trigger] phases.contains(phase) by {
        let i: int = match phase {
            NotificationType::Launching => 0,
            NotificationType::Launched => 1,
            NotificationType::Terminated => 2,
            NotificationType::Hidden => 3,
            NotificationType::Unhidden => 4,
            NotificationType::Activated => 5,
            NotificationType::Deactivated => 6,
        };
        assert(phases[i] == phase);
    }
}

/// An observer subscribes to each phase, and to none twice.
pub proof fn lemma_every_phase_observed()
    ensures
        observed_phases().len() == 7,
        each_phase_once(observed_phases()),
{
    let phases = observed_phases();
    assert forall|phase: NotificationType| #[trigger] phases.contains(phase) by {
        let i: int = match phase {
            NotificationType::Activated => 0,
            NotificationType::Deactivated => 1,
            NotificationType::Hidden => 2,
            NotificationType::Unhidden => 3,
            NotificationType::Launched => 4,
            NotificationType::Launching => 5,
            NotificationType::Terminated => 6,
        };
        assert(phases[i] == phase);
    }
}

/// The state of the bridge.
#[derive(Clone, Copy, Debug, PartialEq, Eq, Structural)]
pub enum BridgeState {
    Unregistered,
    Registered,
    Running,
}

/// The one piece of state that the bridge keeps for the whole process:
/// whether the observer's class is declared, and the senders of the
/// sessions that were started, each under the number it was given.
/// Whoever holds the registry exclusively checks and sets in one step.
pub struct WatcherRegistry {
    declared: bool,
    senders: Vec<Sender<AppNotification>>,
}

impl WatcherRegistry {
    /// What holds of every registry: its senders belong to unbounded
    /// channels, and none was registered before the class was declared.
    #[verifier::type_invariant]
    pub closed spec fn well_formed(&self) -> bool {
        &&& forall|i: int| 0 <= i < self.senders@.len() ==> capacity(#[trigger] self.senders@[i]) is None
        &&& self.senders@.len() > 0 ==> self.declared
    }

    /// Whether the observer's class is declared.
    pub closed spec fn declared(&self) -> bool {
        self.declared
    }

    /// The senders of the sessions, each at the place of its number.
    pub closed spec fn senders(&self) -> Seq<Sender<AppNotification>> {
        self.senders@
    }

    /// The state of the bridge.
    pub open spec fn state(&self) -> BridgeState {
        if !self.declared() {
            BridgeState::Unregistered
        } else if self.senders().len() == 0 {
            BridgeState::Registered
        } else {
            BridgeState::Running
        }
    }

    /// The registry of a process in which nothing has happened yet.
    pub fn new() -> (registry: Self)
        ensures
            registry.well_formed(),
            !registry.declared(),
            registry.senders() == Seq::<Sender<AppNotification>>::empty(),
            registry.state() == BridgeState::Unregistered,
    {
        WatcherRegistry { declared: false, senders: Vec::new() }
    }

    /// The state of the bridge.
    pub fn get_state(&self) -> (state: BridgeState)
        ensures
            state == self.state(),
    {
        if !self.declared {
            BridgeState::Unregistered
        } else if self.senders.len() == 0 {
            BridgeState::Registered
        } else {
            BridgeState::Running
        }
    }

    /// Whether a sender is registered under `slot`.
    pub fn is_registered(&self, slot: usize) -> (r: bool)
        ensures
            r == (slot < self.senders().len()),
    {
        slot < self.senders.len()
    }
}

/// What one pass through the one-shot registration does: afterwards the
/// class counts as declared, the senders are untouched, and a declaration
/// is handed out exactly if the class was not declared before.
pub open spec fn declares(
    before: WatcherRegistry,
    after: WatcherRegistry,
    declaration: Option<ClassDeclaration>,
) -> bool {
    &&& after.declared()
    &&& after.senders() == before.senders()
    &&& declaration is Some <==> !before.declared()
    &&& declaration is Some ==> declaration->0.is_watcher_class()
}

/// The one-shot registration of the observer's class. Where the class is
/// not declared yet, marks it declared and hands out its declaration, for
/// the caller to register with the runtime; where it is, hands out
/// nothing.
pub fn ensure_declared(registry: &mut WatcherRegistry) -> (declaration: Option<ClassDeclaration>)
    ensures
        declares(*old(registry), *final(registry), declaration),
        final(registry).well_formed(),
{
    proof {
        use_type_invariant(&*registry);
    }
    if registry.declared {
        return None;
    }
    let mut methods: Vec<Trampoline> = Vec::new();
    methods.push(
        Trampoline {
            selector: NotificationType::Launching.get_sel(),
            notification_type: NotificationType::Launching,
        },
    );
    methods.push(
        Trampoline {
            selector: NotificationType::Launched.get_sel(),
            notification_type: NotificationType::Launched,
        },
    );
    methods.push(
        Trampoline {
            selector: NotificationType::Terminated.get_sel(),
            notification_type: NotificationType::Terminated,
        },
    );
    methods.push(
        Trampoline {
            selector: NotificationType::Hidden.get_sel(),
            notification_type: NotificationType::Hidden,
        },
    );
    methods.push(
        Trampoline {
            selector: NotificationType::Unhidden.get_sel(),
            notification_type: NotificationType::Unhidden,
        },
    );
    methods.push(
        Trampoline {
            selector: NotificationType::Activated.get_sel(),
            notification_type: NotificationType::Activated,
        },
    );
    methods.push(
        Trampoline {
            selector: NotificationType::Deactivated.get_sel(),
            notification_type: NotificationType::Deactivated,
        },
    );
    let cls = ClassDeclaration {
        name: NSAppWatcher::class_name(),
        superclass: "NSObject",
        methods,
        ivar: "channelSenderPtr",
    };
    registry.declared = true;
    Some(cls)
}

/// Registration happens once: of two passes through the one-shot
/// registration, one after the other, the second hands out no declaration,
/// so that at most one declaration comes of both.
pub proof fn lemma_declared_once(
    start: WatcherRegistry,
    between: WatcherRegistry,
    end: WatcherRegistry,
    first: Option<ClassDeclaration>,
    second: Option<ClassDeclaration>,
)
    requires
        declares(start, between, first),
        declares(between, end, second),
    ensures
        second is None,
        first is Some <==> !start.declared(),
        end.declared(),
        end.senders() == start.senders(),
{
}

/// No pass through the one-shot registration leads back: a class that is
/// declared stays declared, and the state never falls.
pub proof fn lemma_registration_stays(
    before: WatcherRegistry,
    after: WatcherRegistry,
    declaration: Option<ClassDeclaration>,
)
    requires
        before.well_formed(),
        declares(before, after, declaration),
    ensures
        before.state() == BridgeState::Unregistered ==> after.state() == BridgeState::Registered,
        before.state() != BridgeState::Unregistered ==> after.state() == before.state() && declaration is None,
{
}

/// What `start_with_sender` hands back: the observer, the number under
/// which its sender stands in the registry, and the messages that
/// subscribe it to the seven phases, in the order to send them.
pub struct Session {
    pub watcher: NSAppWatcher,
    pub slot: usize,
    pub subscriptions: Vec<AddObserver>,
}

/// Whether `message` subscribes `observer` at `center` to `phase`, about
/// whatever object.
pub open spec fn subscribes(message: AddObserver, center: Id, observer: Id, phase: NotificationType) -> bool {
    &&& message.center == center
    &&& message.observer == observer
    &&& message.selector@ == phase.selector()
    &&& message.name.holds(phase.name())
    &&& message.object.null()
}

/// Whether `message` unsubscribes `observer` at `center` from `phase`.
pub open spec fn unsubscribes(message: RemoveObserver, center: Id, observer: Id, phase: NotificationType) -> bool {
    &&& message.center == center
    &&& message.observer == observer
    &&& message.name.holds(phase.name())
    &&& message.object.null()
}

impl NSAppWatcher {
    /// Puts `sender` into the registry for this observer and gives the
    /// number under which it stands there.
    pub fn set_sender(&mut self, registry: &mut WatcherRegistry, sender: Sender<AppNotification>) -> (slot: usize)
        requires
            old(registry).declared(),
            capacity(sender) is None,
        ensures
            *final(self) == *old(self),
            final(registry).well_formed(),
            final(registry).declared(),
            final(registry).senders() == old(registry).senders().push(sender),
            slot == old(registry).senders().len(),
    {
        proof {
            use_type_invariant(&*registry);
        }
        let mut taken = WatcherRegistry::new();
        core::mem::swap(registry, &mut taken);
        let WatcherRegistry { declared, senders } = taken;
        let mut senders = senders;
        let slot = senders.len();
        senders.push(sender);
        *registry = WatcherRegistry { declared, senders };
        slot
    }

    /// The sender that stands in the registry under `slot`, if there is
    /// one.
    pub fn get_sender<'a>(&mut self, registry: &'a WatcherRegistry, slot: usize) -> (sender: Option<
        &'a Sender<AppNotification>,
    >)
        ensures
            *final(self) == *old(self),
            slot < registry.senders().len() ==> sender == Some(&registry.senders()[slot as int])
                && capacity(registry.senders()[slot as int]) is None,
            slot >= registry.senders().len() ==> sender is None,
    {
        proof {
            use_type_invariant(registry);
        }
        if slot < registry.senders.len() {
            Some(&registry.senders[slot])
        } else {
            None
        }
    }

    /// Starts a session that delivers to `sender`, given the observer that
    /// the runtime made (`instance`), the shared workspace and its
    /// notification center. Wraps the observer, registers the sender, and
    /// says what to send so that the observer is subscribed to all seven
    /// phases; after that the caller enters the runtime's event loop, which
    /// does not return. A sender of a bounded channel is refused: nothing
    /// changes and nothing is handed back.
    pub fn start_with_sender(
        registry: &mut WatcherRegistry,
        sender: Sender<AppNotification>,
        instance: Id,
        workspace: Id,
        center: Id,
    ) -> (session: Option<Session>)
        requires
            old(registry).declared(),
            !instance.null(),
            !workspace.null(),
            !center.null(),
        ensures
            final(registry).well_formed(),
            final(registry).declared(),
            capacity(sender) is Some ==> session is None && final(registry).senders() == old(
                registry,
            ).senders(),
            capacity(sender) is None ==> {
                &&& session is Some
                &&& final(registry).senders() == old(registry).senders().push(sender)
                &&& final(registry).state() == BridgeState::Running
                &&& session->0.watcher.handle() == instance
                &&& session->0.slot == old(registry).senders().len()
                &&& session->0.subscriptions@.len() == observed_phases().len()
                &&& forall|i: int|
                    0 <= i < observed_phases().len() ==> subscribes(
                        #[trigger] session->0.subscriptions@[i],
                        center,
                        instance,
                        observed_phases()[i],
                    )
            },
    {
        proof {
            use_type_invariant(&*registry);
        }
        if sender_capacity(&sender).is_some() {
            return None;
        }
        let mut watcher = NSAppWatcher::from_ptr(instance).unwrap();
        let slot = watcher.set_sender(registry, sender);
        let subscriptions = watcher.register_callbacks(workspace, center);
        Some(Session { watcher, slot, subscriptions })
    }

    /// What to send so that this observer is subscribed to all seven
    /// phases at the notification center of the shared workspace, in the
    /// order to send it.
    pub fn register_callbacks(&mut self, workspace: Id, center: Id) -> (subscriptions: Vec<AddObserver>)
        requires
            !workspace.null(),
            !center.null(),
        ensures
            *final(self) == *old(self),
            subscriptions@.len() == observed_phases().len(),
            forall|i: int|
                0 <= i < observed_phases().len() ==> subscribes(
                    #[trigger] subscriptions@[i],
                    center,
                    old(self).handle(),
                    observed_phases()[i],
                ),
    {
        let shared_workspace = Workspace::shared_workspace(workspace);
        let mut notification_center = shared_workspace.notification_center(center);
        let mut subscriptions: Vec<AddObserver> = Vec::new();
        subscriptions.push(notification_center.add_observer(self, NotificationType::Activated, None));
        subscriptions.push(notification_center.add_observer(self, NotificationType::Deactivated, None));
        subscriptions.push(notification_center.add_observer(self, NotificationType::Hidden, None));
        subscriptions.push(notification_center.add_observer(self, NotificationType::Unhidden, None));
        subscriptions.push(notification_center.add_observer(self, NotificationType::Launched, None));
        subscriptions.push(notification_center.add_observer(self, NotificationType::Launching, None));
        subscriptions.push(notification_center.add_observer(self, NotificationType::Terminated, None));
        subscriptions
    }

    /// What to send so that this observer is unsubscribed from all seven
    /// phases, in the order to send it.
    pub fn unregister_callbacks(&mut self, workspace: Id, center: Id) -> (removals: Vec<RemoveObserver>)
        requires
            !workspace.null(),
            !center.null(),
        ensures
            *final(self) == *old(self),
            removals@.len() == observed_phases().len(),
            forall|i: int|
                0 <= i < observed_phases().len() ==> unsubscribes(
                    #[trigger] removals@[i],
                    center,
                    old(self).handle(),
                    observed_phases()[i],
                ),
    {
        let shared_workspace = Workspace::shared_workspace(workspace);
        let mut notification_center = shared_workspace.notification_center(center);
        let mut removals: Vec<RemoveObserver> = Vec::new();
        removals.push(notification_center.remove_observer(self, NotificationType::Activated));
        removals.push(notification_center.remove_observer(self, NotificationType::Deactivated));
        removals.push(notification_center.remove_observer(self, NotificationType::Hidden));
        removals.push(notification_center.remove_observer(self, NotificationType::Unhidden));
        removals.push(notification_center.remove_observer(self, NotificationType::Launched));
        removals.push(notification_center.remove_observer(self, NotificationType::Launching));
        removals.push(notification_center.remove_observer(self, NotificationType::Terminated));
        removals
    }

    /// Whether the observer is running: it never reports so.
    pub fn is_running(&self) -> (running: bool)
        ensures
            !running,
    {
        false
    }

    /// Whether the observer is paused: it never reports so.
    pub fn is_paused(&self) -> (paused: bool)
        ensures
            !paused,
    {
        false
    }
}

/// What a trampoline does when the runtime calls it on the observer at
/// `app_watcher`, whose slot holds `slot`, for a notification of
/// `notification_type`: decodes the event and sends it on the sender that
/// the registry has under `slot`. Where the channel is disconnected the
/// event was not delivered, and comes back.
pub fn invoke_sender(
    registry: &WatcherRegistry,
    app_watcher: Id,
    slot: usize,
    notification_type: NotificationType,
    notification: &NotificationReply,
) -> (sent: Result<(), AppNotification>)
    requires
        !app_watcher.null(),
        slot < registry.senders().len(),
        notification.decodable(),
    ensures
        sent is Err ==> sent->Err_0@ == (AppNotificationView {
            notification_type,
            app: notification.application.snapshot(),
        }),
{
    let mut watcher = NSAppWatcher::from_ptr(app_watcher).unwrap();
    let app_notification = AppNotification::parse_notification(notification, notification_type).unwrap();
    let sender = watcher.get_sender(registry, slot).unwrap();
    send(sender, app_notification)
}

/// The trampoline for `applicationWillLaunch:`.
pub fn application_will_launch(
    registry: &WatcherRegistry,
    app_watcher: Id,
    slot: usize,
    notification: &NotificationReply,
) -> (sent: Result<(), AppNotification>)
    requires
        !app_watcher.null(),
        slot < registry.senders().len(),
        notification.decodable(),
    ensures
        sent is Err ==> sent->Err_0@ == (AppNotificationView {
            notification_type: NotificationType::Launching,
            app: notification.application.snapshot(),
        }),
{
    invoke_sender(registry, app_watcher, slot, NotificationType::Launching, notification)
}

/// The trampoline for `applicationLaunched:`.
pub fn application_launched(
    registry: &WatcherRegistry,
    app_watcher: Id,
    slot: usize,
    notification: &NotificationReply,
) -> (sent: Result<(), AppNotification>)
    requires
        !app_watcher.null(),
        slot < registry.senders().len(),
        notification.decodable(),
    ensures
        sent is Err ==> sent->Err_0@ == (AppNotificationView {
            notification_type: NotificationType::Launched,
            app: notification.application.snapshot(),
        }),
{
    invoke_sender(registry, app_watcher, slot, NotificationType::Launched, notification)
}

/// The trampoline for `applicationTerminated:`.
pub fn application_terminated(
    registry: &WatcherRegistry,
    app_watcher: Id,
    slot: usize,
    notification: &NotificationReply,
) -> (sent: Result<(), AppNotification>)
    requires
        !app_watcher.null(),
        slot < registry.senders().len(),
        notification.decodable(),
    ensures
        sent is Err ==> sent->Err_0@ == (AppNotificationView {
            notification_type: NotificationType::Terminated,
            app: notification.application.snapshot(),
        }),
{
    invoke_sender(registry, app_watcher, slot, NotificationType::Terminated, notification)
}

/// The trampoline for `applicationHidden:`.
pub fn application_hidden(
    registry: &WatcherRegistry,
    app_watcher: Id,
    slot: usize,
    notification: &NotificationReply,
) -> (sent: Result<(), AppNotification>)
    requires
        !app_watcher.null(),
        slot < registry.senders().len(),
        notification.decodable(),
    ensures
        sent is Err ==> sent->Err_0@ == (AppNotificationView {
            notification_type: NotificationType::Hidden,
            app: notification.application.snapshot(),
        }),
{
    invoke_sender(registry, app_watcher, slot, NotificationType::Hidden, notification)
}

/// The trampoline for `applicationUnhidden:`.
pub fn application_unhidden(
    registry: &WatcherRegistry,
    app_watcher: Id,
    slot: usize,
    notification: &NotificationReply,
) -> (sent: Result<(), AppNotification>)
    requires
        !app_watcher.null(),
        slot < registry.senders().len(),
        notification.decodable(),
    ensures
        sent is Err ==> sent->Err_0@ == (AppNotificationView {
            notification_type: NotificationType::Unhidden,
            app: notification.application.snapshot(),
        }),
{
    invoke_sender(registry, app_watcher, slot, NotificationType::Unhidden, notification)
}

/// The trampoline for `applicationActivated:`.
pub fn application_activated(
    registry: &WatcherRegistry,
    app_watcher: Id,
    slot: usize,
    notification: &NotificationReply,
) -> (sent: Result<(), AppNotification>)
    requires
        !app_watcher.null(),
        slot < registry.senders().len(),
        notification.decodable(),
    ensures
        sent is Err ==> sent->Err_0@ == (AppNotificationView {
            notification_type: NotificationType::Activated,
            app: notification.application.snapshot(),
        }),
{
    invoke_sender(registry, app_watcher, slot, NotificationType::Activated, notification)
}

/// The trampoline for `applicationDeactivated:`.
pub fn application_deactivated(
    registry: &WatcherRegistry,
    app_watcher: Id,
    slot: usize,
    notification: &NotificationReply,
) -> (sent: Result<(), AppNotification>)
    requires
        !app_watcher.null(),
        slot < registry.senders().len(),
        notification.decodable(),
    ensures
        sent is Err ==> sent->Err_0@ == (AppNotificationView {
            notification_type: NotificationType::Deactivated,
            app: notification.application.snapshot(),
        }),
{
    invoke_sender(registry, app_watcher, slot, NotificationType::Deactivated, notification)
}

} // verus!
