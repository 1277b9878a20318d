//! The generator of property getters: from the declared return type of a
//! method to the one getter that fetches and converts the property.
//!
//! The generator sees a declaration as a piece of syntax and never runs
//! it. It reads the return type, strips one `Option`, sorts what is left
//! into one of four shapes by its spelling alone, and appends to the
//! method's body the getter for that shape. A scalar under `Option` is
//! refused: a scalar has no way to be absent.

use vstd::prelude::*;
use vstd::string::*;

verus! {

/// A type as it is written.
#[derive(Debug, PartialEq, Eq)]
pub enum TypeExpr {
    /// A path, segment by segment.
    Path(Vec<PathSegment>),
    /// Anything else: a reference, a tuple, an array and so on.
    Other,
}

/// One segment of a path: a name and what stands behind it.
#[derive(Debug, PartialEq, Eq)]
pub struct PathSegment {
    pub ident: String,
    pub arguments: PathArguments,
}

/// What stands behind the name of a path segment.
#[derive(Debug, PartialEq, Eq)]
pub enum PathArguments {
    /// Nothing.
    Empty,
    /// Arguments in angle brackets.
    AngleBracketed(Vec<GenericArgument>),
    /// Arguments in round brackets.
    Parenthesized,
}

/// One argument in angle brackets.
#[derive(Debug, PartialEq, Eq)]
pub enum GenericArgument {
    /// A type.
    Type(TypeExpr),
    /// A lifetime, a constant, a binding or a bound.
    Other,
}

/// What a signature says of the value returned.
#[derive(Debug, PartialEq, Eq)]
pub enum ReturnType {
    /// Nothing.
    Default,
    /// An arrow and a type.
    Type(TypeExpr),
}

/// The four shapes of a declared return type.
#[derive(Clone, Copy, Debug, PartialEq, Eq, Structural)]
pub enum Shape {
    /// `String`: the property is text.
    Text,
    /// `Id`: the property is a handle, passed on as it is.
    Handle,
    /// An integer, a float or `bool`: the property is a plain value.
    Scalar,
    /// Any other type: the property is an object to wrap.
    Wrapped,
}

/// What a getter does with what came back.
#[derive(Clone, Copy, Debug, PartialEq, Eq, Structural)]
pub enum Behavior {
    /// Decodes the bytes of the foreign string into native text.
    Decode,
    /// Returns the handle as it is.
    PassHandle,
    /// Returns the value as it is.
    PassScalar,
    /// Wraps the handle in the declared type.
    Wrap,
    /// Returns the absent value.
    Absent,
    /// Ends the operation: null came back where the declaration excludes
    /// it.
    Fatal,
}

/// Why the generator refuses a declaration.
#[derive(Clone, Copy, Debug, PartialEq, Eq, Structural)]
pub enum GenerationError {
    /// The attribute stands on something that is no function.
    NotAFunction,
    /// The attribute's arguments lack a name where one is due.
    ExpectedIdentifier,
    /// The attribute's arguments lack the comma between class and selector.
    ExpectedComma,
    /// The attribute's arguments go on after they are complete.
    UnexpectedToken,
    /// The function declares no return type.
    MissingReturnType,
    /// The function declares a scalar under `Option`.
    OptionalScalar,
}

impl GenerationError {
    /// The words in which the refusal is reported.
    pub open spec fn text(self) -> Seq<char> {
        match self {
            GenerationError::NotAFunction => "cocoa_instance_property can only be applied to functions"@,
            GenerationError::ExpectedIdentifier => "expected identifier"@,
            GenerationError::ExpectedComma => "expected `,`"@,
            GenerationError::UnexpectedToken => "unexpected token"@,
            GenerationError::MissingReturnType => "return type must be specified"@,
            GenerationError::OptionalScalar => "value types cannot be optional"@,
        }
    }

    /// The words in which the refusal is reported.
    pub fn message(&self) -> (text: &'static str)
        ensures
            text@ == self.text(),
    {
        match self {
            GenerationError::NotAFunction => "cocoa_instance_property can only be applied to functions",
            GenerationError::ExpectedIdentifier => "expected identifier",
            GenerationError::ExpectedComma => "expected `,`",
            GenerationError::UnexpectedToken => "unexpected token",
            GenerationError::MissingReturnType => "return type must be specified",
            GenerationError::OptionalScalar => "value types cannot be optional",
        }
    }
}

/// Where a getter sends its message.
#[derive(Clone, Debug, PartialEq, Eq)]
pub enum Scope {
    /// To the object that the method is called on.
    Instance,
    /// To the class of this name.
    Type(String),
}

/// A scope, with the class name as the sequence of its characters.
pub enum ScopeView {
    Instance,
    Type(Seq<char>),
}

impl View for Scope {
    type V = ScopeView;

    open spec fn view(&self) -> ScopeView {
        match self {
            Scope::Instance => ScopeView::Instance,
            Scope::Type(class_name) => ScopeView::Type(class_name@),
        }
    }
}

/// A generated getter: where it sends which selector, and how it converts
/// what comes back.
#[derive(Clone, Debug, PartialEq, Eq)]
pub struct PropertyGetter {
    pub scope: Scope,
    pub selector: String,
    pub shape: Shape,
    pub optional: bool,
}

/// A getter, with its names as sequences of characters.
pub struct PropertyGetterView {
    pub scope: ScopeView,
    pub selector: Seq<char>,
    pub shape: Shape,
    pub optional: bool,
}

impl View for PropertyGetter {
    type V = PropertyGetterView;

    open spec fn view(&self) -> PropertyGetterView {
        PropertyGetterView {
            scope: self.scope@,
            selector: self.selector@,
            shape: self.shape,
            optional: self.optional,
        }
    }
}

/// The conversion table: what a getter of `shape`, declared optional or
/// not, does when an object came back and when null came back. A scalar is
/// never null, so that column does not exist for it.
pub open spec fn behavior(shape: Shape, optional: bool, null: bool) -> Behavior {
    match shape {
        Shape::Scalar => Behavior::PassScalar,
        Shape::Text => if !null {
            Behavior::Decode
        } else if optional {
            Behavior::Absent
        } else {
            Behavior::Fatal
        },
        Shape::Handle => if !null {
            Behavior::PassHandle
        } else if optional {
            Behavior::Absent
        } else {
            Behavior::Fatal
        },
        Shape::Wrapped => if !null {
            Behavior::Wrap
        } else if optional {
            Behavior::Absent
        } else {
            Behavior::Fatal
        },
    }
}

/// Whether the generator accepts a declaration of `shape`, optional or
/// not: all but the optional scalar.
pub open spec fn accepted(shape: Shape, optional: bool) -> bool {
    !(shape == Shape::Scalar && optional)
}

impl PropertyGetter {
    /// What the getter does with what came back, by the conversion table.
    pub fn behavior(&self, null: bool) -> (does: Behavior)
        ensures
            does == behavior(self.shape, self.optional, null),
    {
        match self.shape {
            Shape::Scalar => Behavior::PassScalar,
            Shape::Text => if !null {
                Behavior::Decode
            } else if self.optional {
                Behavior::Absent
            } else {
                Behavior::Fatal
            },
            Shape::Handle => if !null {
                Behavior::PassHandle
            } else if self.optional {
                Behavior::Absent
            } else {
                Behavior::Fatal
            },
            Shape::Wrapped => if !null {
                Behavior::Wrap
            } else if self.optional {
                Behavior::Absent
            } else {
                Behavior::Fatal
            },
        }
    }

    /// Whether the getter works inside a scoped memory pool of the
    /// runtime: the getters of text do.
    pub fn uses_pool(&self) -> (pooled: bool)
        ensures
            pooled == (self.shape == Shape::Text),
    {
        self.shape == Shape::Text
    }
}

/// One statement of a function's body.
#[derive(Clone, Debug, PartialEq, Eq)]
pub enum Stmt {
    /// A statement that stood in the declaration.
    Written,
    /// A getter that the generator appended.
    Generated(PropertyGetter),
}

/// A statement, with a getter taken by its view.
pub enum StmtView {
    Written,
    Generated(PropertyGetterView),
}

impl View for Stmt {
    type V = StmtView;

    open spec fn view(&self) -> StmtView {
        match self {
            Stmt::Written => StmtView::Written,
            Stmt::Generated(getter) => StmtView::Generated(getter@),
        }
    }
}

/// A function as the generator sees it: what it returns, and its body.
#[derive(Debug, PartialEq, Eq)]
pub struct ItemFn {
    pub output: ReturnType,
    pub stmts: Vec<Stmt>,
}

impl ItemFn {
    /// The body, statement by statement.
    pub open spec fn body(&self) -> Seq<StmtView> {
        Seq::new(self.stmts@.len(), |i: int| self.stmts@[i]@)
    }
}

/// An item that an attribute stands on.
#[derive(Debug, PartialEq, Eq)]
pub enum Item {
    /// A function.
    Fn(ItemFn),
    /// Anything else.
    Other,
}

/// One token of an attribute's arguments.
#[derive(Clone, Debug, PartialEq, Eq)]
pub enum Token {
    /// A name that is no reserved word.
    Ident(String),
    /// A punctuation character.
    Punct(char),
    /// A reserved word, a literal, a lifetime or a bracketed group.
    Other,
}

/// A token, with a name as the sequence of its characters.
pub enum TokenView {
    Ident(Seq<char>),
    Punct(char),
    Other,
}

impl View for Token {
    type V = TokenView;

    open spec fn view(&self) -> TokenView {
        match self {
            Token::Ident(name) => TokenView::Ident(name@),
            Token::Punct(c) => TokenView::Punct(*c),
            Token::Other => TokenView::Other,
        }
    }
}

/// The tokens, each by its view.
pub open spec fn tokens_view(input: Seq<Token>) -> Seq<TokenView> {
    Seq::new(input.len(), |i: int| input[i]@)
}

/// The arguments of the attribute for an instance property: the selector.
#[derive(Clone, Debug, PartialEq, Eq)]
pub struct CocoaInstancePropertyMeta {
    pub selector: String,
}

/// The arguments of the attribute for a type property: the class, and the
/// selector.
#[derive(Clone, Debug, PartialEq, Eq)]
pub struct CocoaTypePropertyMeta {
    pub class_name: String,
    pub selector: String,
}

/// What the arguments `name` amount to: the selector.
pub open spec fn instance_meta(input: Seq<TokenView>) -> Result<Seq<char>, GenerationError> {
    if input.len() == 0 || !(input[0] is Ident) {
        Err(GenerationError::ExpectedIdentifier)
    } else if input.len() > 1 {
        Err(GenerationError::UnexpectedToken)
    } else {
        Ok(input[0]->Ident_0)
    }
}

/// What the arguments `class, name` amount to: the class and the selector.
pub open spec fn type_meta(input: Seq<TokenView>) -> Result<(Seq<char>, Seq<char>), GenerationError> {
    if input.len() == 0 || !(input[0] is Ident) {
        Err(GenerationError::ExpectedIdentifier)
    } else if input.len() == 1 || input[1] != TokenView::Punct(',') {
        Err(GenerationError::ExpectedComma)
    } else if input.len() == 2 || !(input[2] is Ident) {
        Err(GenerationError::ExpectedIdentifier)
    } else if input.len() > 3 {
        Err(GenerationError::UnexpectedToken)
    } else {
        Ok((input[0]->Ident_0, input[2]->Ident_0))
    }
}

impl CocoaInstancePropertyMeta {
    /// Reads the arguments: one name, the selector, and nothing after it.
    pub fn parse(input: &Vec<Token>) -> (meta: Result<Self, GenerationError>)
        ensures
            match instance_meta(tokens_view(input@)) {
                Ok(selector) => meta is Ok && meta->Ok_0.selector@ == selector,
                Err(error) => meta == Err::<Self, GenerationError>(error),
            },
    {
        if input.len() == 0 {
            return Err(GenerationError::ExpectedIdentifier);
        }
        assert(tokens_view(input@)[0] == input@[0]@);
        let selector = match &input[0] {
            Token::Ident(name) => name.clone(),
            _ => {
                return Err(GenerationError::ExpectedIdentifier);
            },
        };
        if input.len() > 1 {
            return Err(GenerationError::UnexpectedToken);
        }
        Ok(CocoaInstancePropertyMeta { selector })
    }
}

impl CocoaTypePropertyMeta {
    /// Reads the arguments: the name of the class, a comma, the selector,
    /// and nothing after it.
    pub fn parse(input: &Vec<Token>) -> (meta: Result<Self, GenerationError>)
        ensures
            match type_meta(tokens_view(input@)) {
                Ok(names) => meta is Ok && meta->Ok_0.class_name@ == names.0 && meta->Ok_0.selector@
                    == names.1,
                Err(error) => meta == Err::<Self, GenerationError>(error),
            },
    {
        if input.len() == 0 {
            return Err(GenerationError::ExpectedIdentifier);
        }
        assert(tokens_view(input@)[0] == input@[0]@);
        let class_name = match &input[0] {
            Token::Ident(name) => name.clone(),
            _ => {
                return Err(GenerationError::ExpectedIdentifier);
            },
        };
        if input.len() == 1 {
            return Err(GenerationError::ExpectedComma);
        }
        assert(tokens_view(input@)[1] == input@[1]@);
        match &input[1] {
            Token::Punct(c) => {
                if *c != ',' {
                    return Err(GenerationError::ExpectedComma);
                }
            },
            _ => {
                return Err(GenerationError::ExpectedComma);
            },
        }
        if input.len() == 2 {
            return Err(GenerationError::ExpectedIdentifier);
        }
        assert(tokens_view(input@)[2] == input@[2]@);
        let selector = match &input[2] {
            Token::Ident(name) => name.clone(),
            _ => {
                return Err(GenerationError::ExpectedIdentifier);
            },
        };
        if input.len() > 3 {
            return Err(GenerationError::UnexpectedToken);
        }
        Ok(CocoaTypePropertyMeta { class_name, selector })
    }
}

/// Whether `ty` is a path of the one segment `name`.
pub open spec fn is_named(ty: TypeExpr, name: Seq<char>) -> bool {
    ty matches TypeExpr::Path(segments) && segments@.len() == 1 && segments@[0].ident@ == name
}

/// Whether `name` is the name of a scalar type.
pub open spec fn is_scalar_name(name: Seq<char>) -> bool {
    ||| name == "u8"@
    ||| name == "u16"@
    ||| name == "u32"@
    ||| name == "u64"@
    ||| name == "u128"@
    ||| name == "i8"@
    ||| name == "i16"@
    ||| name == "i32"@
    ||| name == "i64"@
    ||| name == "i128"@
    ||| name == "f32"@
    ||| name == "f64"@
    ||| name == "bool"@
    ||| name == "isize"@
    ||| name == "usize"@
}

/// Whether `ty` is written `String`.
pub open spec fn spec_is_std_string(ty: TypeExpr) -> bool {
    is_named(ty, "String"@)
}

/// Whether `ty` is written `Id`.
pub open spec fn spec_is_id(ty: TypeExpr) -> bool {
    is_named(ty, "Id"@)
}

/// Whether `ty` is written as one of the scalar types.
pub open spec fn spec_is_value_type(ty: TypeExpr) -> bool {
    ty matches TypeExpr::Path(segments) && segments@.len() == 1 && is_scalar_name(segments@[0].ident@)
}

/// The type inside `ty`, where `ty` is written `Option` of one type.
pub open spec fn option_inner(ty: TypeExpr) -> Option<TypeExpr> {
    match ty {
        TypeExpr::Path(segments) => if segments@.len() == 1 && segments@[0].ident@ == "Option"@ {
            match segments@[0].arguments {
                PathArguments::AngleBracketed(args) => if args@.len() == 1 {
                    match args@[0] {
                        GenericArgument::Type(inner) => Some(inner),
                        _ => None,
                    }
                } else {
                    None
                },
                _ => None,
            }
        } else {
            None
        },
        _ => None,
    }
}

/// The shape of `ty`: text, handle or scalar by its name, and wrapped for
/// every other type.
pub open spec fn shape_of(ty: TypeExpr) -> Shape {
    if spec_is_std_string(ty) {
        Shape::Text
    } else if spec_is_id(ty) {
        Shape::Handle
    } else if spec_is_value_type(ty) {
        Shape::Scalar
    } else {
        Shape::Wrapped
    }
}

/// The type that decides the shape: the one inside `Option`, where `ty`
/// is an `Option`, else `ty` itself.
pub open spec fn converted_type(ty: TypeExpr) -> TypeExpr {
    match option_inner(ty) {
        Some(inner) => inner,
        None => ty,
    }
}

/// The getter that the generator appends to a function that returns
/// `output`, for a message with `selector` in `scope`; or why it appends
/// none.
pub open spec fn getter_for(output: ReturnType, scope: ScopeView, selector: Seq<char>) -> Result<
    PropertyGetterView,
    GenerationError,
> {
    match output {
        ReturnType::Default => Err(GenerationError::MissingReturnType),
        ReturnType::Type(ty) => {
            let optional = option_inner(ty) is Some;
            let shape = shape_of(converted_type(ty));
            if accepted(shape, optional) {
                Ok(PropertyGetterView { scope, selector, shape, optional })
            } else {
                Err(GenerationError::OptionalScalar)
            }
        },
    }
}

/// Whether `ident` is spelled `name`.
fn ident_is(ident: &String, name: &str) -> (same: bool)
    ensures
        same == (ident@ == name@),
{
    let wanted = String::from_str(name);
    *ident == wanted
}

/// The declared return type, or the refusal of a signature that has none.
pub fn get_return_type(return_type: &ReturnType) -> (ty: Result<&TypeExpr, GenerationError>)
    ensures
        match *return_type {
            ReturnType::Default => ty == Err::<&TypeExpr, GenerationError>(GenerationError::MissingReturnType),
            ReturnType::Type(declared) => ty == Ok::<&TypeExpr, GenerationError>(&declared),
        },
{
    match return_type {
        ReturnType::Default => Err(GenerationError::MissingReturnType),
        ReturnType::Type(ty) => Ok(ty),
    }
}

/// Whether `ty` is written `String`.
pub fn is_std_string(ty: &TypeExpr) -> (r: bool)
    ensures
        r == spec_is_std_string(*ty),
{
    match ty {
        TypeExpr::Path(segments) => segments.len() == 1 && ident_is(&segments[0].ident, "String"),
        _ => false,
    }
}

/// Whether `ty` is written `Id`.
pub fn is_id(ty: &TypeExpr) -> (r: bool)
    ensures
        r == spec_is_id(*ty),
{
    match ty {
        TypeExpr::Path(segments) => segments.len() == 1 && ident_is(&segments[0].ident, "Id"),
        _ => false,
    }
}

/// Whether `ty` is written as one of the scalar types: an integer of any
/// width, a float, or `bool`.
pub fn is_value_type(ty: &TypeExpr) -> (r: bool)
    ensures
        r == spec_is_value_type(*ty),
{
    match ty {
        TypeExpr::Path(segments) => {
            if segments.len() != 1 {
                return false;
            }
            let ident = &segments[0].ident;
            ident_is(ident, "u8") || ident_is(ident, "u16") || ident_is(ident, "u32") || ident_is(
                ident,
                "u64",
            ) || ident_is(ident, "u128") || ident_is(ident, "i8") || ident_is(ident, "i16") || ident_is(
                ident,
                "i32",
            ) || ident_is(ident, "i64") || ident_is(ident, "i128") || ident_is(ident, "f32")
                || ident_is(ident, "f64") || ident_is(ident, "bool") || ident_is(ident, "isize")
                || ident_is(ident, "usize")
        },
        _ => false,
    }
}

/// The type inside `ty`, where `ty` is written `Option` of one type.
pub fn get_option_type(ty: &TypeExpr) -> (inner: Option<&TypeExpr>)
    ensures
        match inner {
            Some(found) => option_inner(*ty) == Some(*found),
            None => option_inner(*ty) is None,
        },
{
    if let TypeExpr::Path(segments) = ty {
        if segments.len() != 1 || !ident_is(&segments[0].ident, "Option") {
            return None;
        }
        if let PathArguments::AngleBracketed(args) = &segments[0].arguments {
            if args.len() != 1 {
                return None;
            }
            if let GenericArgument::Type(inner) = &args[0] {
                return Some(inner);
            }
        }
    }
    None
}

/// Appends `getter` to the body of `fn_item`.
fn append_getter(fn_item: &mut ItemFn, getter: PropertyGetter)
    ensures
        final(fn_item).output == old(fn_item).output,
        final(fn_item).body() == old(fn_item).body().push(StmtView::Generated(getter@)),
{
    fn_item.stmts.push(Stmt::Generated(getter));
    assert(fn_item.body() =~= old(fn_item).body().push(StmtView::Generated(getter@)));
}

/// Appends the getter of an instance property that is text.
pub fn append_string_instance_property(fn_item: &mut ItemFn, selector: &str, optional: bool)
    ensures
        final(fn_item).output == old(fn_item).output,
        final(fn_item).body() == old(fn_item).body().push(
            StmtView::Generated(
                PropertyGetterView {
                    scope: ScopeView::Instance,
                    selector: selector@,
                    shape: Shape::Text,
                    optional,
                },
            ),
        ),
{
    let body = PropertyGetter {
        scope: Scope::Instance,
        selector: String::from_str(selector),
        shape: Shape::Text,
        optional,
    };
    append_getter(fn_item, body);
}

/// Appends the getter of an instance property that is a scalar.
pub fn append_value_instance_property(fn_item: &mut ItemFn, selector: &str)
    ensures
        final(fn_item).output == old(fn_item).output,
        final(fn_item).body() == old(fn_item).body().push(
            StmtView::Generated(
                PropertyGetterView {
                    scope: ScopeView::Instance,
                    selector: selector@,
                    shape: Shape::Scalar,
                    optional: false,
                },
            ),
        ),
{
    let return_statement = PropertyGetter {
        scope: Scope::Instance,
        selector: String::from_str(selector),
        shape: Shape::Scalar,
        optional: false,
    };
    append_getter(fn_item, return_statement);
}

/// Appends the getter of an instance property that is a handle.
pub fn append_id_instance_property(fn_item: &mut ItemFn, selector: &str, optional: bool)
    ensures
        final(fn_item).output == old(fn_item).output,
        final(fn_item).body() == old(fn_item).body().push(
            StmtView::Generated(
                PropertyGetterView {
                    scope: ScopeView::Instance,
                    selector: selector@,
                    shape: Shape::Handle,
                    optional,
                },
            ),
        ),
{
    let return_statement = PropertyGetter {
        scope: Scope::Instance,
        selector: String::from_str(selector),
        shape: Shape::Handle,
        optional,
    };
    append_getter(fn_item, return_statement);
}

/// Appends the getter of an instance property that is an object to wrap.
pub fn append_cocoatype_instance_property(fn_item: &mut ItemFn, selector: &str, optional: bool)
    ensures
        final(fn_item).output == old(fn_item).output,
        final(fn_item).body() == old(fn_item).body().push(
            StmtView::Generated(
                PropertyGetterView {
                    scope: ScopeView::Instance,
                    selector: selector@,
                    shape: Shape::Wrapped,
                    optional,
                },
            ),
        ),
{
    let return_statement = PropertyGetter {
        scope: Scope::Instance,
        selector: String::from_str(selector),
        shape: Shape::Wrapped,
        optional,
    };
    append_getter(fn_item, return_statement);
}

/// Appends the getter of a type property that is text.
pub fn append_string_type_property(fn_item: &mut ItemFn, class_name: &str, selector: &str, optional: bool)
    ensures
        final(fn_item).output == old(fn_item).output,
        final(fn_item).body() == old(fn_item).body().push(
            StmtView::Generated(
                PropertyGetterView {
                    scope: ScopeView::Type(class_name@),
                    selector: selector@,
                    shape: Shape::Text,
                    optional,
                },
            ),
        ),
{
    let body = PropertyGetter {
        scope: Scope::Type(String::from_str(class_name)),
        selector: String::from_str(selector),
        shape: Shape::Text,
        optional,
    };
    append_getter(fn_item, body);
}

/// Appends the getter of a type property that is a scalar.
pub fn append_value_type_property(fn_item: &mut ItemFn, class_name: &str, selector: &str)
    ensures
        final(fn_item).output == old(fn_item).output,
        final(fn_item).body() == old(fn_item).body().push(
            StmtView::Generated(
                PropertyGetterView {
                    scope: ScopeView::Type(class_name@),
                    selector: selector@,
                    shape: Shape::Scalar,
                    optional: false,
                },
            ),
        ),
{
    let return_statement = PropertyGetter {
        scope: Scope::Type(String::from_str(class_name)),
        selector: String::from_str(selector),
        shape: Shape::Scalar,
        optional: false,
    };
    append_getter(fn_item, return_statement);
}

/// Appends the getter of a type property that is a handle.
pub fn append_id_type_property(fn_item: &mut ItemFn, class_name: &str, selector: &str, optional: bool)
    ensures
        final(fn_item).output == old(fn_item).output,
        final(fn_item).body() == old(fn_item).body().push(
            StmtView::Generated(
                PropertyGetterView {
                    scope: ScopeView::Type(class_name@),
                    selector: selector@,
                    shape: Shape::Handle,
                    optional,
                },
            ),
        ),
{
    let return_statement = PropertyGetter {
        scope: Scope::Type(String::from_str(class_name)),
        selector: String::from_str(selector),
        shape: Shape::Handle,
        optional,
    };
    append_getter(fn_item, return_statement);
}

/// Appends the getter of a type property that is an object to wrap.
pub fn append_cocoatype_type_property(fn_item: &mut ItemFn, class_name: &str, selector: &str, optional: bool)
    ensures
        final(fn_item).output == old(fn_item).output,
        final(fn_item).body() == old(fn_item).body().push(
            StmtView::Generated(
                PropertyGetterView {
                    scope: ScopeView::Type(class_name@),
                    selector: selector@,
                    shape: Shape::Wrapped,
                    optional,
                },
            ),
        ),
{
    let return_statement = PropertyGetter {
        scope: Scope::Type(String::from_str(class_name)),
        selector: String::from_str(selector),
        shape: Shape::Wrapped,
        optional,
    };
    append_getter(fn_item, return_statement);
}

/// What the generator owes for `before`: with `generated`, the same
/// function with the getter appended to its body; with a refusal, the
/// function untouched.
pub open spec fn appended(
    before: ItemFn,
    after: ItemFn,
    result: Result<(), GenerationError>,
    generated: Result<PropertyGetterView, GenerationError>,
) -> bool {
    match generated {
        Ok(getter) => {
            &&& result is Ok
            &&& after.output == before.output
            &&& after.body() == before.body().push(StmtView::Generated(getter))
        },
        Err(error) => result == Err::<(), GenerationError>(error) && after == before,
    }
}

/// The shape of `ty`, read off its spelling.
pub fn classify(ty: &TypeExpr) -> (shape: Shape)
    ensures
        shape == shape_of(*ty),
{
    if is_std_string(ty) {
        Shape::Text
    } else if is_id(ty) {
        Shape::Handle
    } else if is_value_type(ty) {
        Shape::Scalar
    } else {
        Shape::Wrapped
    }
}

/// The shape that the declared return type asks for, and whether it is
/// declared optional; or the refusal of a signature without return type.
pub fn declared_shape(output: &ReturnType) -> (declared: Result<(Shape, bool), GenerationError>)
    ensures
        match *output {
            ReturnType::Default => declared == Err::<(Shape, bool), GenerationError>(
                GenerationError::MissingReturnType,
            ),
            ReturnType::Type(ty) => declared == Ok::<(Shape, bool), GenerationError>(
                (shape_of(converted_type(ty)), option_inner(ty) is Some),
            ),
        },
{
    let mut return_type = match get_return_type(output) {
        Ok(ty) => ty,
        Err(error) => {
            return Err(error);
        },
    };
    let optional = if let Some(option_inner) = get_option_type(return_type) {
        return_type = option_inner;
        true
    } else {
        false
    };
    Ok((classify(return_type), optional))
}

/// Appends to `fn_item` the getter of the instance property that `meta`
/// names, chosen by the declared return type; or refuses the declaration
/// and leaves `fn_item` as it was.
pub fn append_instance_property(fn_item: &mut ItemFn, meta: &CocoaInstancePropertyMeta) -> (result: Result<
    (),
    GenerationError,
>)
    ensures
        appended(
            *old(fn_item),
            *final(fn_item),
            result,
            getter_for(old(fn_item).output, ScopeView::Instance, meta.selector@),
        ),
{
    let (shape, optional) = match declared_shape(&fn_item.output) {
        Ok(declared) => declared,
        Err(error) => {
            return Err(error);
        },
    };
    let selector = meta.selector.as_str();
    match shape {
        Shape::Text => {
            append_string_instance_property(fn_item, selector, optional);
        },
        Shape::Handle => {
            append_id_instance_property(fn_item, selector, optional);
        },
        Shape::Scalar => {
            if optional {
                return Err(GenerationError::OptionalScalar);
            } else {
                append_value_instance_property(fn_item, selector);
            }
        },
        Shape::Wrapped => {
            append_cocoatype_instance_property(fn_item, selector, optional);
        },
    }
    Ok(())
}

/// Appends to `fn_item` the getter of the type property that `meta`
/// names, chosen by the declared return type as for an instance property;
/// or refuses the declaration and leaves `fn_item` as it was.
pub fn append_type_property(fn_item: &mut ItemFn, meta: &CocoaTypePropertyMeta) -> (result: Result<
    (),
    GenerationError,
>)
    ensures
        appended(
            *old(fn_item),
            *final(fn_item),
            result,
            getter_for(old(fn_item).output, ScopeView::Type(meta.class_name@), meta.selector@),
        ),
{
    let (shape, optional) = match declared_shape(&fn_item.output) {
        Ok(declared) => declared,
        Err(error) => {
            return Err(error);
        },
    };
    let selector = meta.selector.as_str();
    let class_name = meta.class_name.as_str();
    match shape {
        Shape::Text => {
            append_string_type_property(fn_item, class_name, selector, optional);
        },
        Shape::Handle => {
            append_id_type_property(fn_item, class_name, selector, optional);
        },
        Shape::Scalar => {
            if optional {
                return Err(GenerationError::OptionalScalar);
            } else {
                append_value_type_property(fn_item, class_name, selector);
            }
        },
        Shape::Wrapped => {
            append_cocoatype_type_property(fn_item, class_name, selector, optional);
        },
    }
    Ok(())
}

/// What an attribute owes for the item it stands on: for a function whose
/// arguments read as `scope` and `selector`, the function with its getter
/// appended; the refusal where the item is no function, where the
/// arguments do not read, and where the generator refuses the declaration.
pub open spec fn expanded(
    item: Item,
    meta: Result<(ScopeView, Seq<char>), GenerationError>,
    result: Result<Item, GenerationError>,
) -> bool {
    match item {
        Item::Other => result == Err::<Item, GenerationError>(GenerationError::NotAFunction),
        Item::Fn(before) => match meta {
            Err(error) => result == Err::<Item, GenerationError>(error),
            Ok(names) => match getter_for(before.output, names.0, names.1) {
                Err(error) => result == Err::<Item, GenerationError>(error),
                Ok(getter) => {
                    &&& result matches Ok(Item::Fn(after))
                    &&& after.output == before.output
                    &&& after.body() == before.body().push(StmtView::Generated(getter))
                },
            },
        },
    }
}

/// The scope and selector that the arguments of the attribute for an
/// instance property read as.
pub open spec fn instance_names(input: Seq<TokenView>) -> Result<(ScopeView, Seq<char>), GenerationError> {
    match instance_meta(input) {
        Ok(selector) => Ok((ScopeView::Instance, selector)),
        Err(error) => Err(error),
    }
}

/// The scope and selector that the arguments of the attribute for a type
/// property read as.
pub open spec fn type_names(input: Seq<TokenView>) -> Result<(ScopeView, Seq<char>), GenerationError> {
    match type_meta(input) {
        Ok(names) => Ok((ScopeView::Type(names.0), names.1)),
        Err(error) => Err(error),
    }
}

/// The attribute for an instance property: given its arguments and the
/// item it stands on, the item with the getter appended, or the refusal.
pub fn cocoa_instance_property(metadata: &Vec<Token>, input: Item) -> (output: Result<Item, GenerationError>)
    ensures
        expanded(input, instance_names(tokens_view(metadata@)), output),
{
    match input {
        Item::Fn(fn_item) => {
            let mut fn_item = fn_item;
            let meta = match CocoaInstancePropertyMeta::parse(metadata) {
                Ok(meta) => meta,
                Err(error) => {
                    return Err(error);
                },
            };
            match append_instance_property(&mut fn_item, &meta) {
                Ok(()) => Ok(Item::Fn(fn_item)),
                Err(error) => Err(error),
            }
        },
        _ => Err(GenerationError::NotAFunction),
    }
}

/// The attribute for a type property: given its arguments and the item it
/// stands on, the item with the getter appended, or the refusal.
pub fn cocoa_type_property(metadata: &Vec<Token>, input: Item) -> (output: Result<Item, GenerationError>)
    ensures
        expanded(input, type_names(tokens_view(metadata@)), output),
{
    match input {
        Item::Fn(fn_item) => {
            let mut fn_item = fn_item;
            let meta = match CocoaTypePropertyMeta::parse(metadata) {
                Ok(meta) => meta,
                Err(error) => {
                    return Err(error);
                },
            };
            match append_type_property(&mut fn_item, &meta) {
                Ok(()) => Ok(Item::Fn(fn_item)),
                Err(error) => Err(error),
            }
        },
        _ => Err(GenerationError::NotAFunction),
    }
}

/// The type that a derive stands on.
#[derive(Clone, Debug, PartialEq, Eq)]
pub struct DeriveInput {
    pub ident: String,
}

/// The implementation of the typed-handle contract that the derive
/// writes: for which type, and what `class_name` returns in it. The two
/// other methods are the same for every type: `from_ptr` wraps every handle
/// but null, and `ptr` returns the handle held.
#[derive(Clone, Debug, PartialEq, Eq)]
pub struct CocoaTypeImpl {
    pub self_ty: String,
    pub class_name: String,
}

/// The derive of the typed-handle contract: the implementation for the
/// type it stands on, whose class name is the name of that type.
pub fn derive_cocoatype(input: &DeriveInput) -> (result: CocoaTypeImpl)
    ensures
        result.self_ty@ == input.ident@,
        result.class_name@ == input.ident@,
{
    let name = &input.ident;
    CocoaTypeImpl { self_ty: name.clone(), class_name: name.clone() }
}

/// The names by which the generator knows text, handle and scalar are all
/// different, so a type has one shape and no more: of the three tests by
/// name at most one holds, and where none holds the type is wrapped.
pub proof fn lemma_exactly_one_shape(ty: TypeExpr)
    ensures
        !(spec_is_std_string(ty) && spec_is_id(ty)),
        !(spec_is_std_string(ty) && spec_is_value_type(ty)),
        !(spec_is_id(ty) && spec_is_value_type(ty)),
        shape_of(ty) == Shape::Text <==> spec_is_std_string(ty),
        shape_of(ty) == Shape::Handle <==> spec_is_id(ty),
        shape_of(ty) == Shape::Scalar <==> spec_is_value_type(ty),
        shape_of(ty) == Shape::Wrapped <==> !spec_is_std_string(ty) && !spec_is_id(ty)
            && !spec_is_value_type(ty),
{
    reveal_strlit("String");
    reveal_strlit("Id");
    reveal_strlit("u8");
    reveal_strlit("u16");
    reveal_strlit("u32");
    reveal_strlit("u64");
    reveal_strlit("u128");
    reveal_strlit("i8");
    reveal_strlit("i16");
    reveal_strlit("i32");
    reveal_strlit("i64");
    reveal_strlit("i128");
    reveal_strlit("f32");
    reveal_strlit("f64");
    reveal_strlit("bool");
    reveal_strlit("isize");
    reveal_strlit("usize");
    match ty {
        TypeExpr::Path(segments) => {
            if segments@.len() == 1 {
                let name = segments@[0].ident@;
                if name == "String"@ {
                    assert(name.len() == 6);
                    assert(name[0] == 'S');
                }
                if name == "Id"@ {
                    assert(name.len() == 2);
                    assert(name[0] == 'I');
                }
            }
        },
        _ => {},
    }
}

/// The conversion table is total and leaves no choice: the generator
/// accepts every pair of shape and optionality but the optional scalar, and
/// for an accepted pair the table gives one behavior for an object and one
/// for null. Null is fatal exactly for the getters of objects that are not
/// declared optional, and absent exactly for those that are.
pub proof fn lemma_table_total(shape: Shape, optional: bool)
    ensures
        accepted(shape, optional) <==> !(shape == Shape::Scalar && optional),
        behavior(shape, optional, false) == match shape {
            Shape::Text => Behavior::Decode,
            Shape::Handle => Behavior::PassHandle,
            Shape::Scalar => Behavior::PassScalar,
            Shape::Wrapped => Behavior::Wrap,
        },
        shape != Shape::Scalar ==> behavior(shape, optional, true) == if optional {
            Behavior::Absent
        } else {
            Behavior::Fatal
        },
        behavior(shape, optional, false) != Behavior::Absent,
        behavior(shape, optional, false) != Behavior::Fatal,
{
}

/// The generator is a function of the declaration: it appends a getter
/// exactly for the declarations with a return type that is no optional
/// scalar, and that getter has the declared shape and optionality. An
/// optional scalar is refused whatever the scope and the selector.
pub proof fn lemma_generation(output: ReturnType, scope: ScopeView, selector: Seq<char>)
    ensures
        match output {
            ReturnType::Default => getter_for(output, scope, selector) == Err::<
                PropertyGetterView,
                GenerationError,
            >(GenerationError::MissingReturnType),
            ReturnType::Type(ty) => {
                let shape = shape_of(converted_type(ty));
                let optional = option_inner(ty) is Some;
                if shape == Shape::Scalar && optional {
                    getter_for(output, scope, selector) == Err::<PropertyGetterView, GenerationError>(
                        GenerationError::OptionalScalar,
                    )
                } else {
                    getter_for(output, scope, selector) == Ok::<PropertyGetterView, GenerationError>(
                        PropertyGetterView { scope, selector, shape, optional },
                    )
                }
            },
        },
{
}

} // verus!
