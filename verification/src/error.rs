//! The host error taxonomy, and the bridge between host errors and the
//! exceptions of the engine.

use crate::context::Ctx;
use crate::text::{append_int, append_nat, decimal, decimal_nat};
use crate::value::Value;
use vstd::prelude::*;
use vstd::string::*;

verus! {

/// Why a byte string handed back by the engine is not UTF-8: the length of the
/// valid prefix and, where the input did not simply end too early, the length
/// of the offending sequence.
#[derive(Clone, Copy, Debug, PartialEq, Eq)]
pub struct Utf8Cause {
    pub valid_up_to: usize,
    pub error_len: Option<usize>,
}

/// Whether the bytes end inside a sequence that more bytes could complete:
/// some non-empty continuation makes them valid UTF-8.
pub open spec fn ends_too_early(rest: Seq<u8>) -> bool {
    exists|more: Seq<u8>| more.len() > 0 && vstd::utf8::valid_utf8(#[trigger] (rest + more))
}

/// Whether `cause` says why `bytes` are not UTF-8: the prefix of the length
/// `valid_up_to` is valid and no longer prefix is; the offending sequence
/// starts there, is not empty and lies within the bytes; and its length is
/// absent exactly where the bytes end too early, which is at most three bytes
/// after the valid prefix.
pub open spec fn is_utf8_cause(bytes: Seq<u8>, cause: Utf8Cause) -> bool {
    let valid = cause.valid_up_to as int;
    &&& valid < bytes.len()
    &&& vstd::utf8::valid_utf8(bytes.subrange(0, valid))
    &&& forall|k: int|
        valid < k <= bytes.len() ==> !vstd::utf8::valid_utf8(#[trigger] bytes.subrange(0, k))
    &&& match cause.error_len {
        Some(len) => 1 <= len && valid + len <= bytes.len(),
        None => bytes.len() - valid <= 3,
    }
    &&& cause.error_len is None <==> ends_too_early(bytes.subrange(valid, bytes.len() as int))
}

/// Error type of the library.
#[allow(inconsistent_fields)]
#[derive(Clone, Debug, PartialEq, Eq)]
pub enum Error {
    /// Could not allocate memory.
    Allocation,
    /// A host string held a null byte, at the given position, and cannot be
    /// handed to the engine as a C string.
    InvalidString(usize),
    /// A string of the engine was not UTF-8.
    Utf8(Utf8Cause),
    /// The engine reported a failure and left no exception behind.
    Unknown,
    /// An exception raised by the engine.
    Exception { message: String, file: String, line: i32, stack: String },
    /// A value of the engine could not be converted to a host type.
    FromJs { from: &'static str, to: &'static str, message: Option<String> },
    /// A host value could not be converted to a value of the engine.
    IntoJs { from: &'static str, to: &'static str, message: Option<String> },
    /// An I/O failure of the surrounding tooling, by its description.
    IO(String),
}

/// The mathematical content of an [`Error`].
#[allow(inconsistent_fields)]
pub enum ErrorView {
    Allocation,
    InvalidString(usize),
    Utf8(Utf8Cause),
    Unknown,
    Exception { message: Seq<char>, file: Seq<char>, line: i32, stack: Seq<char> },
    FromJs { from: Seq<char>, to: Seq<char>, message: Option<Seq<char>> },
    IntoJs { from: Seq<char>, to: Seq<char>, message: Option<Seq<char>> },
    IO(Seq<char>),
}

pub open spec fn text_view(text: Option<String>) -> Option<Seq<char>> {
    match text {
        Some(s) => Some(s@),
        None => None,
    }
}

impl View for Error {
    type V = ErrorView;

    open spec fn view(&self) -> ErrorView {
        match *self {
            Error::Allocation => ErrorView::Allocation,
            Error::InvalidString(position) => ErrorView::InvalidString(position),
            Error::Utf8(cause) => ErrorView::Utf8(cause),
            Error::Unknown => ErrorView::Unknown,
            Error::Exception { message, file, line, stack } => ErrorView::Exception {
                message: message@,
                file: file@,
                line,
                stack: stack@,
            },
            Error::FromJs { from, to, message } => ErrorView::FromJs {
                from: from@,
                to: to@,
                message: text_view(message),
            },
            Error::IntoJs { from, to, message } => ErrorView::IntoJs {
                from: from@,
                to: to@,
                message: text_view(message),
            },
            Error::IO(description) => ErrorView::IO(description@),
        }
    }
}

/// The text of the cause of a `Utf8` error.
pub open spec fn utf8_cause_text(cause: Utf8Cause) -> Seq<char> {
    match cause.error_len {
        Some(len) => "invalid utf-8 sequence of "@ + decimal_nat(len as nat)
            + " bytes from index "@ + decimal_nat(cause.valid_up_to as nat),
        None => "incomplete utf-8 byte sequence from index "@ + decimal_nat(
            cause.valid_up_to as nat,
        ),
    }
}

/// The optional detail of a conversion error, empty where there is none.
pub open spec fn detail(message: Option<Seq<char>>) -> Seq<char> {
    match message {
        Some(text) => text,
        None => Seq::empty(),
    }
}

/// The human-readable text of an error.
pub open spec fn display(e: ErrorView) -> Seq<char> {
    match e {
        ErrorView::Allocation => "Allocation failed while creating object"@,
        ErrorView::InvalidString(position) => "string contained internal null bytes: "@
            + "nul byte found in provided data at position: "@ + decimal_nat(position as nat),
        ErrorView::Utf8(cause) => "Conversion from string failed: "@ + utf8_cause_text(cause),
        ErrorView::Unknown => "quickjs library created a unknown error"@,
        ErrorView::Exception { message, file, line, stack } => "exception generated by quickjs: ["@
            + file + "]:"@ + decimal(line as int) + " "@ + message + "\n"@ + stack,
        ErrorView::FromJs { from, to, message } => "error converting from js from type '"@ + from
            + "', to '"@ + to + "': "@ + detail(message),
        ErrorView::IntoJs { from, to, message } => "error converting from type '"@ + from
            + "', to '"@ + to + "': "@ + detail(message),
        ErrorView::IO(description) => "IO Error: "@ + description,
    }
}

/// What the driver read off a thrown value: whether the engine classes it as
/// an error, and the four properties of an error as far as they could be read
/// and converted.
#[derive(Clone, Debug, PartialEq, Eq)]
pub struct ErrorFields {
    pub is_error: bool,
    pub message: Option<String>,
    pub file_name: Option<String>,
    pub line_number: Option<i32>,
    pub stack: Option<String>,
}

/// The mathematical content of [`ErrorFields`].
pub struct ErrorFieldsView {
    pub is_error: bool,
    pub message: Option<Seq<char>>,
    pub file_name: Option<Seq<char>>,
    pub line_number: Option<i32>,
    pub stack: Option<Seq<char>>,
}

impl View for ErrorFields {
    type V = ErrorFieldsView;

    open spec fn view(&self) -> ErrorFieldsView {
        ErrorFieldsView {
            is_error: self.is_error,
            message: text_view(self.message),
            file_name: text_view(self.file_name),
            line_number: self.line_number,
            stack: text_view(self.stack),
        }
    }
}

/// The error that a thrown value converts to. An object that the engine
/// classes as an error is an exception with the properties read off it, an
/// absent text taken as empty and an absent line as -1. Every other value, an
/// object that is no error as well as a value that is no object, is the
/// conversion error from `object` to `error`.
pub open spec fn error_from_js(value: Value, fields: ErrorFieldsView) -> Result<
    ErrorView,
    ErrorView,
> {
    if value is Object && fields.is_error {
        Ok(
            ErrorView::Exception {
                message: detail(fields.message),
                file: detail(fields.file_name),
                line: match fields.line_number {
                    Some(line) => line,
                    None => -1i32,
                },
                stack: detail(fields.stack),
            },
        )
    } else {
        Err(ErrorView::FromJs { from: "object"@, to: "error"@, message: None })
    }
}

/// One assignment to a property of a native error object.
#[derive(Clone, Debug, PartialEq, Eq)]
pub enum Property {
    Message(String),
    FileName(String),
    LineNumber(i32),
    Stack(String),
}

/// The mathematical content of a [`Property`].
pub enum PropertyView {
    Message(Seq<char>),
    FileName(Seq<char>),
    LineNumber(i32),
    Stack(Seq<char>),
}

impl View for Property {
    type V = PropertyView;

    open spec fn view(&self) -> PropertyView {
        match *self {
            Property::Message(text) => PropertyView::Message(text@),
            Property::FileName(text) => PropertyView::FileName(text@),
            Property::LineNumber(line) => PropertyView::LineNumber(line),
            Property::Stack(text) => PropertyView::Stack(text@),
        }
    }
}

/// The four properties of a native error object that carry an exception.
#[derive(Clone, Copy, Debug, PartialEq, Eq)]
pub enum ErrorKey {
    Message,
    FileName,
    LineNumber,
    Stack,
}

impl ErrorKey {
    /// The name of the property in the engine.
    pub open spec fn name_spec(self) -> Seq<char> {
        match self {
            ErrorKey::Message => "message"@,
            ErrorKey::FileName => "fileName"@,
            ErrorKey::LineNumber => "lineNumber"@,
            ErrorKey::Stack => "stack"@,
        }
    }

    /// The name of the property in the engine.
    pub fn name(self) -> (name: &'static str)
        ensures
            name@ == self.name_spec(),
    {
        match self {
            ErrorKey::Message => "message",
            ErrorKey::FileName => "fileName",
            ErrorKey::LineNumber => "lineNumber",
            ErrorKey::Stack => "stack",
        }
    }
}

impl PropertyView {
    /// The property that is assigned.
    pub open spec fn key(self) -> ErrorKey {
        match self {
            PropertyView::Message(_) => ErrorKey::Message,
            PropertyView::FileName(_) => ErrorKey::FileName,
            PropertyView::LineNumber(_) => ErrorKey::LineNumber,
            PropertyView::Stack(_) => ErrorKey::Stack,
        }
    }
}

impl Property {
    /// The property that is assigned.
    pub fn key(&self) -> (key: ErrorKey)
        ensures
            key == self@.key(),
    {
        match self {
            Property::Message(_) => ErrorKey::Message,
            Property::FileName(_) => ErrorKey::FileName,
            Property::LineNumber(_) => ErrorKey::LineNumber,
            Property::Stack(_) => ErrorKey::Stack,
        }
    }
}

/// The contents of a list of assignments.
pub open spec fn property_views(properties: Seq<Property>) -> Seq<PropertyView> {
    properties.map_values(|p: Property| p@)
}

/// `[p]` where `present`, the empty list otherwise.
pub open spec fn only_if(present: bool, p: PropertyView) -> Seq<PropertyView> {
    if present {
        seq![p]
    } else {
        Seq::empty()
    }
}

/// The assignments that turn a fresh native error object into the image of an
/// error: of an exception its non-empty texts and its non-negative line, in the
/// order message, file name, line number, stack; of any other error its text
/// as the message.
pub open spec fn properties(e: ErrorView) -> Seq<PropertyView> {
    match e {
        ErrorView::Exception { message, file, line, stack } => only_if(
            message.len() > 0,
            PropertyView::Message(message),
        ) + only_if(file.len() > 0, PropertyView::FileName(file)) + only_if(
            line >= 0,
            PropertyView::LineNumber(line),
        ) + only_if(stack.len() > 0, PropertyView::Stack(stack)),
        _ => seq![PropertyView::Message(display(e))],
    }
}

/// What the driver reads off a fresh native error object: an error with none
/// of the four properties.
pub open spec fn fresh_error_object() -> ErrorFieldsView {
    ErrorFieldsView { is_error: true, message: None, file_name: None, line_number: None, stack: None }
}

/// What is read off an error object after one more assignment.
pub open spec fn assign(fields: ErrorFieldsView, p: PropertyView) -> ErrorFieldsView {
    match p {
        PropertyView::Message(text) => ErrorFieldsView { message: Some(text), ..fields },
        PropertyView::FileName(text) => ErrorFieldsView { file_name: Some(text), ..fields },
        PropertyView::LineNumber(line) => ErrorFieldsView { line_number: Some(line), ..fields },
        PropertyView::Stack(text) => ErrorFieldsView { stack: Some(text), ..fields },
    }
}

/// What is read off a fresh native error object after the assignments, made
/// in order.
pub open spec fn read_back(assignments: Seq<PropertyView>) -> ErrorFieldsView
    decreases assignments.len(),
{
    if assignments.len() == 0 {
        fresh_error_object()
    } else {
        assign(read_back(assignments.drop_last()), assignments.last())
    }
}

/// Reading back after one more optional assignment.
pub proof fn lemma_read_back_only_if(assignments: Seq<PropertyView>, present: bool, p: PropertyView)
    ensures
        read_back(assignments + only_if(present, p)) == if present {
            assign(read_back(assignments), p)
        } else {
            read_back(assignments)
        },
{
    if present {
        let all = assignments + only_if(present, p);
        assert(all.drop_last() =~= assignments);
        assert(all.last() == p);
    } else {
        assert(assignments + only_if(present, p) =~= assignments);
    }
}

/// An exception that is written to a fresh native error object and read back
/// off it is the same exception, provided that its line is -1 or more: the
/// non-empty texts and the non-negative line come back as they were, and what
/// was left out comes back as empty and as -1.
pub proof fn lemma_exception_round_trip(value: Value, e: ErrorView)
    requires
        value is Object,
        e matches ErrorView::Exception { line, .. } && line >= -1,
    ensures
        error_from_js(value, read_back(properties(e))) == Ok::<ErrorView, ErrorView>(e),
{
    match e {
        ErrorView::Exception { message, file, line, stack } => {
            let a = only_if(message.len() > 0, PropertyView::Message(message));
            let b = a + only_if(file.len() > 0, PropertyView::FileName(file));
            let c = b + only_if(line >= 0, PropertyView::LineNumber(line));
            let d = c + only_if(stack.len() > 0, PropertyView::Stack(stack));
            lemma_read_back_only_if(
                Seq::empty(),
                message.len() > 0,
                PropertyView::Message(message),
            );
            assert(Seq::<PropertyView>::empty() + a =~= a);
            lemma_read_back_only_if(a, file.len() > 0, PropertyView::FileName(file));
            lemma_read_back_only_if(b, line >= 0, PropertyView::LineNumber(line));
            lemma_read_back_only_if(c, stack.len() > 0, PropertyView::Stack(stack));
            assert(properties(e) == d);
            let back = read_back(d);
            assert(detail(back.message) =~= message);
            assert(detail(back.file_name) =~= file);
            assert(detail(back.stack) =~= stack);
        },
        _ => {},
    }
}

/// An error that is no exception, written to a fresh native error object and
/// read back off it, is an exception whose message is the text of the error,
/// with no file, line -1 and no stack.
pub proof fn lemma_error_reads_back_as_exception(value: Value, e: ErrorView)
    requires
        value is Object,
        !(e is Exception),
    ensures
        error_from_js(value, read_back(properties(e))) == Ok::<ErrorView, ErrorView>(
            ErrorView::Exception {
                message: display(e),
                file: Seq::empty(),
                line: -1i32,
                stack: Seq::empty(),
            },
        ),
{
    let p = PropertyView::Message(display(e));
    lemma_read_back_only_if(Seq::empty(), true, p);
    assert(Seq::<PropertyView>::empty() + only_if(true, p) =~= seq![p]);
}

impl ErrorFields {
    /// The fields of a value off which nothing was read.
    pub fn unread() -> (fields: ErrorFields)
        ensures
            fields@ == (ErrorFieldsView {
                is_error: false,
                message: None,
                file_name: None,
                line_number: None,
                stack: None,
            }),
    {
        ErrorFields { is_error: false, message: None, file_name: None, line_number: None, stack: None }
    }

    /// What the driver reads off a fresh native error object after the
    /// assignments, made in order.
    pub fn after(assignments: &Vec<Property>) -> (fields: ErrorFields)
        ensures
            fields@ == read_back(property_views(assignments@)),
    {
        let mut fields = ErrorFields {
            is_error: true,
            message: None,
            file_name: None,
            line_number: None,
            stack: None,
        };
        let mut i: usize = 0;
        assert(property_views(assignments@.take(0)) =~= Seq::<PropertyView>::empty());
        while i < assignments.len()
            invariant
                i <= assignments.len(),
                fields@ == read_back(property_views(assignments@.take(i as int))),
            decreases assignments.len() - i,
        {
            let ghost before = property_views(assignments@.take(i as int));
            let ghost next = property_views(assignments@.take(i + 1));
            assert(next.drop_last() =~= before);
            assert(next.last() == assignments@[i as int]@);
            match &assignments[i] {
                Property::Message(text) => {
                    fields.message = Some(text.clone());
                },
                Property::FileName(text) => {
                    fields.file_name = Some(text.clone());
                },
                Property::LineNumber(line) => {
                    fields.line_number = Some(*line);
                },
                Property::Stack(text) => {
                    fields.stack = Some(text.clone());
                },
            }
            i += 1;
        }
        assert(assignments@.take(i as int) =~= assignments@);
        fields
    }
}

/// How an error is raised inside the engine.
#[derive(Clone, Debug, PartialEq, Eq)]
pub enum Throw {
    /// Raise the engine's out-of-memory exception.
    OutOfMemory,
    /// Raise a `TypeError` with this message, given as UTF-8 bytes.
    TypeError(Vec<u8>),
    /// Raise an `InternalError` with this message, given as UTF-8 bytes.
    InternalError(Vec<u8>),
    /// Create a native error object, make these assignments and throw it.
    Object(Vec<Property>),
}

/// The mathematical content of a [`Throw`].
pub enum ThrowView {
    OutOfMemory,
    TypeError(Seq<u8>),
    InternalError(Seq<u8>),
    Object(Seq<PropertyView>),
}

impl View for Throw {
    type V = ThrowView;

    open spec fn view(&self) -> ThrowView {
        match *self {
            Throw::OutOfMemory => ThrowView::OutOfMemory,
            Throw::TypeError(message) => ThrowView::TypeError(message@),
            Throw::InternalError(message) => ThrowView::InternalError(message@),
            Throw::Object(assignments) => ThrowView::Object(property_views(assignments@)),
        }
    }
}

/// How an error reaches running script: an allocation failure as the
/// out-of-memory exception, a string or conversion error as a `TypeError` with
/// the error's text, an unknown error as an `InternalError` with it, and an
/// exception or I/O error as a native error object.
pub open spec fn throw_plan(e: ErrorView) -> ThrowView {
    match e {
        ErrorView::Allocation => ThrowView::OutOfMemory,
        ErrorView::InvalidString(_) | ErrorView::Utf8(_) | ErrorView::FromJs { .. }
        | ErrorView::IntoJs { .. } => ThrowView::TypeError(vstd::utf8::encode_utf8(display(e))),
        ErrorView::Unknown => ThrowView::InternalError(vstd::utf8::encode_utf8(display(e))),
        _ => ThrowView::Object(properties(e)),
    }
}

/// How an error reaches running script where its native error object cannot
/// be built: as `throw_plan` has it where that needs no object, else as an
/// `InternalError` with the error's text.
pub open spec fn plain_throw_plan(e: ErrorView) -> ThrowView {
    match throw_plan(e) {
        ThrowView::Object(_) => ThrowView::InternalError(vstd::utf8::encode_utf8(display(e))),
        plan => plan,
    }
}

fn append_detail(out: &mut String, message: &Option<String>)
    ensures
        final(out)@ == old(out)@ + detail(text_view(*message)),
{
    match message {
        Some(text) => {
            out.append(text.as_str());
        },
        None => {
            assert(out@ =~= out@ + Seq::<char>::empty());
        },
    }
}

fn push_text(out: &mut Vec<Property>, text: &String, which: u8)
    requires
        which < 3,
    ensures
        text@.len() == 0 ==> *final(out) == *old(out),
        text@.len() > 0 ==> property_views(final(out)@) == property_views(old(out)@).push(
            if which == 0 {
                PropertyView::Message(text@)
            } else if which == 1 {
                PropertyView::FileName(text@)
            } else {
                PropertyView::Stack(text@)
            },
        ),
{
    if !text.as_str().is_empty() {
        let copy = text.clone();
        let p = if which == 0 {
            Property::Message(copy)
        } else if which == 1 {
            Property::FileName(copy)
        } else {
            Property::Stack(copy)
        };
        out.push(p);
        assert(property_views(out@) =~= property_views(old(out)@).push(p@));
    }
}

fn text_or_empty(text: Option<String>) -> (r: String)
    ensures
        r@ == detail(text_view(text)),
{
    match text {
        Some(s) => s,
        None => String::new(),
    }
}

impl Error {
    /// The error that a thrown value converts to, given what the driver read
    /// off it.
    pub fn from_js<'js>(ctx: Ctx<'js>, value: Value<'js>, fields: ErrorFields) -> (r: Result<
        Error,
        Error,
    >)
        ensures
            match r {
                Ok(e) => error_from_js(value, fields@) == Ok::<ErrorView, ErrorView>(e@),
                Err(e) => error_from_js(value, fields@) == Err::<ErrorView, ErrorView>(e@),
            },
    {
        let is_object = match value {
            Value::Object(_) => true,
            _ => false,
        };
        if is_object && fields.is_error {
            Ok(
                Error::Exception {
                    message: text_or_empty(fields.message),
                    file: text_or_empty(fields.file_name),
                    line: match fields.line_number {
                        Some(line) => line,
                        None => -1,
                    },
                    stack: text_or_empty(fields.stack),
                },
            )
        } else {
            Err(Error::FromJs { from: "object", to: "error", message: None })
        }
    }

    /// Returns whether the error is an exception raised by the engine.
    pub fn is_exception(&self) -> (r: bool)
        ensures
            r == (self@ is Exception),
    {
        matches!(*self, Error::Exception { .. })
    }

    /// The human-readable text of the error.
    pub fn to_string(&self) -> (r: String)
        ensures
            r@ == display(self@),
    {
        match self {
            Error::Allocation => String::from_str("Allocation failed while creating object"),
            Error::InvalidString(position) => {
                let mut s = String::from_str("string contained internal null bytes: ");
                s.append("nul byte found in provided data at position: ");
                append_nat(&mut s, *position as u64);
                s
            },
            Error::Utf8(cause) => {
                let mut s = String::from_str("Conversion from string failed: ");
                let ghost head = s@;
                match cause.error_len {
                    Some(len) => {
                        s.append("invalid utf-8 sequence of ");
                        append_nat(&mut s, len as u64);
                        s.append(" bytes from index ");
                        append_nat(&mut s, cause.valid_up_to as u64);
                    },
                    None => {
                        s.append("incomplete utf-8 byte sequence from index ");
                        append_nat(&mut s, cause.valid_up_to as u64);
                    },
                }
                assert(s@ =~= head + utf8_cause_text(*cause));
                s
            },
            Error::Unknown => String::from_str("quickjs library created a unknown error"),
            Error::Exception { message, file, line, stack } => {
                let mut s = String::from_str("exception generated by quickjs: [");
                s.append(file.as_str());
                s.append("]:");
                append_int(&mut s, *line);
                s.append(" ");
                s.append(message.as_str());
                s.append("\n");
                s.append(stack.as_str());
                s
            },
            Error::FromJs { from, to, message } => {
                let mut s = String::from_str("error converting from js from type '");
                s.append(from);
                s.append("', to '");
                s.append(to);
                s.append("': ");
                append_detail(&mut s, message);
                s
            },
            Error::IntoJs { from, to, message } => {
                let mut s = String::from_str("error converting from type '");
                s.append(from);
                s.append("', to '");
                s.append(to);
                s.append("': ");
                append_detail(&mut s, message);
                s
            },
            Error::IO(description) => {
                let mut s = String::from_str("IO Error: ");
                s.append(description.as_str());
                s
            },
        }
    }

    /// The text of the error as the bytes of a C string, without the
    /// terminating null byte.
    pub fn to_cstring(&self) -> (r: Vec<u8>)
        ensures
            r@ == vstd::utf8::encode_utf8(display(self@)),
    {
        let text = self.to_string();
        text.as_str().as_bytes_vec()
    }

    /// The assignments that make a fresh native error object the image of this
    /// error.
    pub fn into_js(&self) -> (r: Vec<Property>)
        ensures
            property_views(r@) == properties(self@),
    {
        let mut r: Vec<Property> = Vec::new();
        assert(property_views(r@) =~= Seq::<PropertyView>::empty());
        match self {
            Error::Exception { message, file, line, stack } => {
                push_text(&mut r, message, 0);
                let ghost a = property_views(r@);
                assert(a =~= only_if(message@.len() > 0, PropertyView::Message(message@)));
                push_text(&mut r, file, 1);
                let ghost b = property_views(r@);
                assert(b =~= a + only_if(file@.len() > 0, PropertyView::FileName(file@)));
                if *line >= 0 {
                    let p = Property::LineNumber(*line);
                    r.push(p);
                    assert(property_views(r@) =~= b.push(p@));
                }
                let ghost c = property_views(r@);
                assert(c =~= b + only_if(*line >= 0, PropertyView::LineNumber(*line)));
                push_text(&mut r, stack, 2);
                assert(property_views(r@) =~= c + only_if(
                    stack@.len() > 0,
                    PropertyView::Stack(stack@),
                ));
            },
            _ => {
                let p = Property::Message(self.to_string());
                r.push(p);
                assert(property_views(r@) =~= seq![p@]);
            },
        }
        r
    }

    /// How this error is raised inside the engine without a native error
    /// object, for where one cannot be built.
    pub fn throw_plain(&self) -> (r: Throw)
        ensures
            r@ == plain_throw_plan(self@),
            !(r@ is Object),
    {
        match self {
            Error::Allocation => Throw::OutOfMemory,
            Error::InvalidString(_) | Error::Utf8(_) | Error::FromJs { .. } | Error::IntoJs {
                ..
            } => Throw::TypeError(self.to_cstring()),
            _ => Throw::InternalError(self.to_cstring()),
        }
    }

    /// How this error is raised inside the engine.
    pub fn throw(&self) -> (r: Throw)
        ensures
            r@ == throw_plan(self@),
    {
        match self {
            Error::Allocation => Throw::OutOfMemory,
            Error::InvalidString(_) | Error::Utf8(_) | Error::FromJs { .. } | Error::IntoJs {
                ..
            } => Throw::TypeError(self.to_cstring()),
            Error::Unknown => Throw::InternalError(self.to_cstring()),
            _ => Throw::Object(self.into_js()),
        }
    }
}

} // verus!
