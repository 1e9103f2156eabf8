//! The settings that a tab's source carries from one entry to the next: the
//! duration of the notes that name none, and the number of strings of the
//! fretted instrument. The source changes them with lines of the form
//! `duration = name` and `string_num = number`.

use vstd::prelude::*;
use vstd::string::StringExecFns;
use crate::text::decimal;
use crate::text::decimal_string;

verus! {

/// The number of strings of a guitar.
pub const GUITAR_STRING_NUM: usize = 6;

/// The settings of a fretted instrument.
#[derive(Copy, Clone, Debug, PartialEq, Eq, Structural)]
pub struct FrettedContext {
    pub string_num: usize,
}

impl Default for FrettedContext {
    /// A guitar.
    fn default() -> (r: Self)
        ensures
            r.string_num == GUITAR_STRING_NUM,
    {
        Self { string_num: GUITAR_STRING_NUM }
    }
}

/// The settings in force.
#[derive(Debug)]
pub struct Context {
    /// The name of the duration that was set, or `None` while the source has
    /// set none.
    pub duration: Option<String>,
    pub fretted: FrettedContext,
}

/// What a [`Context`] holds, with text as a sequence of characters.
pub struct ContextView {
    pub duration: Option<Seq<char>>,
    pub fretted: FrettedContext,
}

impl View for Context {
    type V = ContextView;

    open spec fn view(&self) -> ContextView {
        ContextView {
            duration: match self.duration {
                Some(name) => Some(name@),
                None => None,
            },
            fretted: self.fretted,
        }
    }
}

impl Default for Context {
    /// No duration set, and a guitar.
    fn default() -> (r: Self)
        ensures
            r@.duration is None,
            r@.fretted.string_num == GUITAR_STRING_NUM,
    {
        Self { duration: None, fretted: FrettedContext::default() }
    }
}

/// A line of the source that changes a setting.
#[derive(Debug)]
pub enum ContextDsl {
    /// `duration = name`
    Duration(String),
    /// `string_num = number`
    StringNum(usize),
}

/// What a [`ContextDsl`] holds, with text as a sequence of characters.
pub enum ContextDslView {
    Duration(Seq<char>),
    StringNum(usize),
}

impl View for ContextDsl {
    type V = ContextDslView;

    open spec fn view(&self) -> ContextDslView {
        match self {
            ContextDsl::Duration(name) => ContextDslView::Duration(name@),
            ContextDsl::StringNum(n) => ContextDslView::StringNum(*n),
        }
    }
}

/// Why a line of the source changes no setting.
#[derive(Copy, Clone, Debug, PartialEq, Eq, Structural)]
pub enum DslError {
    /// The line does not start with a name.
    ExpectedField,
    /// The line names a setting that does not exist.
    InvalidField,
    /// A duration is set to something that is no name.
    ExpectedIdent,
    /// The number of strings is set to something that is no number, or to
    /// one that is out of range.
    ExpectedInteger,
}

/// The note that a changed setting leaves in the tab: a key that says which
/// setting it was, and the new value as text.
#[derive(Debug)]
pub struct ContextNote {
    pub key: String,
    pub comment: String,
}

/// The identifier that `syn` reads from `text` when `text`, as Rust source,
/// is one identifier that is no reserved word; `None` for every other text.
pub uninterp spec fn syn_ident(text: Seq<char>) -> Option<Seq<char>>;

/// The number that `syn` reads from `text` when `text`, as Rust source, is
/// one integer literal whose value fits a `usize`; `None` for every other
/// text.
pub uninterp spec fn syn_lit_int(text: Seq<char>) -> Option<usize>;

/// What a line with the first word `field` and the value `value` gives, where
/// `name` is what was read from `field` as an identifier, `ident` what was
/// read from `value` as an identifier, and `number` what was read from
/// `value` as a number.
pub open spec fn parsed(
    name: Option<Seq<char>>,
    ident: Option<Seq<char>>,
    number: Option<usize>,
) -> Result<ContextDslView, DslError> {
    match name {
        None => Err(DslError::ExpectedField),
        Some(name) => if name == "duration"@ {
            match ident {
                Some(ident) => Ok(ContextDslView::Duration(ident)),
                None => Err(DslError::ExpectedIdent),
            }
        } else if name == "string_num"@ {
            match number {
                Some(number) => Ok(ContextDslView::StringNum(number)),
                None => Err(DslError::ExpectedInteger),
            }
        } else {
            Err(DslError::InvalidField)
        },
    }
}

/// The view of a parse result.
pub open spec fn result_view(r: Result<ContextDsl, DslError>) -> Result<ContextDslView, DslError> {
    match r {
        Ok(dsl) => Ok(dsl@),
        Err(e) => Err(e),
    }
}

/// Reads `text` as one identifier, by `syn::parse_str::<syn::Ident>`: the
/// result is what `syn` gives for this text, `None` where `syn` reports an
/// error.
#[verifier::external_body]
fn parse_ident(text: &str) -> (r: Option<String>)
    ensures
        match r {
            Some(name) => syn_ident(text@) == Some(name@),
            None => syn_ident(text@) is None,
        },
{
    match syn::parse_str::<syn::Ident>(text) {
        Ok(ident) => Some(ident.to_string()),
        Err(_) => None,
    }
}

/// Reads `text` as one integer literal, by `syn::parse_str::<syn::LitInt>`,
/// and takes its value as a `usize`, by `syn::LitInt::base10_parse`: the
/// result is what `syn` gives for this text, `None` where either step
/// reports an error.
#[verifier::external_body]
fn parse_lit_int(text: &str) -> (r: Option<usize>)
    ensures
        r == syn_lit_int(text@),
{
    match syn::parse_str::<syn::LitInt>(text) {
        Ok(lit) => match lit.base10_parse::<usize>() {
            Ok(number) => Some(number),
            Err(_) => None,
        },
        Err(_) => None,
    }
}

fn same_text(a: &String, b: &str) -> (r: bool)
    ensures
        r == (a@ == b@),
{
    let b = String::from_str(b);
    *a == b
}

impl ContextDsl {
    /// Puts a line together from what was read of it: `name` from its first
    /// word, `ident` and `number` from its value. A line that sets the
    /// duration needs a name as its value, a line that sets the number of
    /// strings a number; no other setting exists.
    pub fn from_parts(name: Option<String>, ident: Option<String>, number: Option<usize>) -> (r:
        Result<ContextDsl, DslError>)
        ensures
            result_view(r) == parsed(
                match name {
                    Some(name) => Some(name@),
                    None => None,
                },
                match ident {
                    Some(ident) => Some(ident@),
                    None => None,
                },
                number,
            ),
    {
        match name {
            None => Err(DslError::ExpectedField),
            Some(name) => {
                if same_text(&name, "duration") {
                    match ident {
                        Some(ident) => Ok(ContextDsl::Duration(ident)),
                        None => Err(DslError::ExpectedIdent),
                    }
                } else if same_text(&name, "string_num") {
                    match number {
                        Some(number) => Ok(ContextDsl::StringNum(number)),
                        None => Err(DslError::ExpectedInteger),
                    }
                } else {
                    Err(DslError::InvalidField)
                }
            },
        }
    }

    /// Reads a line of the source, given as the text before the equals sign
    /// and the text after it.
    pub fn parse(field: &str, value: &str) -> (r: Result<ContextDsl, DslError>)
        ensures
            result_view(r) == parsed(syn_ident(field@), syn_ident(value@), syn_lit_int(value@)),
    {
        match parse_ident(field) {
            None => Self::from_parts(None, None, None),
            Some(name) => {
                if same_text(&name, "duration") {
                    Self::from_parts(Some(name), parse_ident(value), None)
                } else if same_text(&name, "string_num") {
                    Self::from_parts(Some(name), None, parse_lit_int(value))
                } else {
                    Self::from_parts(Some(name), None, None)
                }
            },
        }
    }
}

impl Context {
    /// The name of the duration that was set, if one was.
    pub fn _duration(&self) -> (r: Option<String>)
        ensures
            match r {
                Some(name) => self@.duration == Some(name@),
                None => self@.duration is None,
            },
    {
        match &self.duration {
            Some(name) => Some(name.clone()),
            None => None,
        }
    }

    /// The settings of the fretted instrument.
    pub fn fretted(&self) -> (r: FrettedContext)
        ensures
            r == self@.fretted,
    {
        self.fretted
    }

    /// The settings after the line `dsl`.
    pub open spec fn applied(self, dsl: ContextDslView) -> ContextView {
        match dsl {
            ContextDslView::Duration(name) => ContextView {
                duration: Some(name),
                fretted: self@.fretted,
            },
            ContextDslView::StringNum(n) => ContextView {
                duration: self@.duration,
                fretted: FrettedContext { string_num: n },
            },
        }
    }

    /// Carries out the line `dsl` and returns the note that it leaves in the
    /// tab: the key `dsl::context::duration` with the name of the duration,
    /// or the key `dsl::context::string_num` with the number of strings.
    pub fn apply(&mut self, dsl: &ContextDsl) -> (note: ContextNote)
        ensures
            final(self)@ == old(self).applied(dsl@),
            match dsl@ {
                ContextDslView::Duration(name) => note.key@ == "dsl::context::duration"@
                    && note.comment@ == name,
                ContextDslView::StringNum(n) => note.key@ == "dsl::context::string_num"@
                    && note.comment@ == decimal(n as nat),
            },
    {
        match dsl {
            ContextDsl::Duration(name) => {
                self.duration = Some(name.clone());
                ContextNote { key: String::from_str("dsl::context::duration"), comment: name.clone() }
            },
            ContextDsl::StringNum(n) => {
                self.fretted.string_num = *n;
                ContextNote {
                    key: String::from_str("dsl::context::string_num"),
                    comment: decimal_string(*n as u64),
                }
            },
        }
    }
}

} // verus!
