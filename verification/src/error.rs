//! Errors in a configuration file, and what a report of one shows.

use vstd::prelude::*;
use vstd::string::StringExecFns;

verus! {

/// A stretch of a configuration file: the offsets of its first character and
/// of the character behind its last, and the file that it lies in.
#[derive(Debug)]
pub struct Span {
    pub start: usize,
    pub end: usize,
    pub file_name: String,
    pub file_content: String,
}

impl Clone for Span {
    fn clone(&self) -> (copy: Self)
        ensures
            copy == *self,
    {
        Span {
            start: self.start,
            end: self.end,
            file_name: self.file_name.clone(),
            file_content: self.file_content.clone(),
        }
    }
}

/// A value together with the place in the configuration that it was read
/// from.
#[derive(Debug)]
pub struct Spanned<T> {
    pub t: T,
    pub span: Span,
}

/// An error in the configuration, with the place where it was found if that
/// is known.
#[derive(Debug)]
pub struct ParseError {
    pub msg: String,
    pub span: Option<Span>,
}

/// What a report of a configuration error shows: where in the file the error
/// lies, as offset and length, the message with a pointer to further help,
/// and the file itself.
#[derive(Debug)]
pub struct CfgError {
    pub err_span: Option<(usize, usize)>,
    pub help_msg: String,
    pub file_name: Option<String>,
    pub file_content: Option<String>,
}

/// What follows the message of an error in a report.
pub const HELP_TEXT: &'static str =
    "\n\nFor more info, see the configuration guide or ask in GitHub discussions.\n    guide : https://github.com/jtroo/kanata/blob/main/docs/config.adoc\n    ask   : https://github.com/jtroo/kanata/discussions";

/// The message of an error, followed by where to find further help.
pub fn help(err_msg: &str) -> (text: String)
    ensures
        text@ == err_msg@ + HELP_TEXT@,
{
    err_msg.to_owned().concat(HELP_TEXT)
}

impl ParseError {
    /// An error with the message `err_msg` at the place `span`.
    pub fn new(span: Span, err_msg: &str) -> (error: Self)
        ensures
            error.msg@ == err_msg@,
            error.span == Some(span),
    {
        Self { msg: err_msg.to_owned(), span: Some(span) }
    }

    /// An error with the message `err_msg` whose place is not known.
    pub fn new_without_span(err_msg: &str) -> (error: Self)
        ensures
            error.msg@ == err_msg@,
            error.span is None,
    {
        Self { msg: err_msg.to_owned(), span: None }
    }

    /// An error with the message `err_msg` at the place of `spanned`.
    pub fn from_spanned<T>(spanned: &Spanned<T>, err_msg: &str) -> (error: Self)
        ensures
            error.msg@ == err_msg@,
            error.span == Some(spanned.span),
    {
        Self::new(spanned.span.clone(), err_msg)
    }

    /// Whether the place of the error, if it has one, ends no earlier than it
    /// starts.
    pub open spec fn well_formed(&self) -> bool {
        self.span matches Some(span) ==> span.start <= span.end
    }

    /// What a report of this error shows.
    pub fn into_report(self) -> (report: CfgError)
        requires
            self.well_formed(),
        ensures
            report.help_msg@ == self.msg@ + HELP_TEXT@,
            match self.span {
                Some(span) => {
                    &&& report.err_span == Some((span.start, (span.end - span.start) as usize))
                    &&& report.file_name == Some(span.file_name)
                    &&& report.file_content == Some(span.file_content)
                },
                None => {
                    &&& report.err_span is None
                    &&& report.file_name is None
                    &&& report.file_content is None
                },
            },
    {
        let help_msg = help(self.msg.as_str());
        match self.span {
            Some(span) => CfgError {
                err_span: Some((span.start, span.end - span.start)),
                help_msg,
                file_name: Some(span.file_name),
                file_content: Some(span.file_content),
            },
            None => CfgError { err_span: None, help_msg, file_name: None, file_content: None },
        }
    }
}

impl Clone for ParseError {
    fn clone(&self) -> (copy: Self)
        ensures
            copy == *self,
    {
        ParseError {
            msg: self.msg.clone(),
            span: match &self.span {
                Some(span) => Some(span.clone()),
                None => None,
            },
        }
    }
}

} // verus!
