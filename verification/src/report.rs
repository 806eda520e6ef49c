//! A private status-reporting sink.
//!
//! The build's shared status reporter is not safe for concurrent use, so each
//! task running on a pool thread gets a sink of its own, scoped to one input.
//! The sink buffers leveled notices; the process plumbing around the library
//! forwards them to the user.

use vstd::prelude::*;

verus! {

/// How serious a notice is.
#[derive(Clone, Copy, Debug, PartialEq, Eq, Structural)]
pub enum NoticeLevel {
    Note,
    Warning,
    Error,
}

/// One buffered notice: a level, a fixed message, and an optional detail
/// (an offending line, or the text of an underlying cause).
#[derive(Clone, Debug)]
pub struct Notice {
    pub level: NoticeLevel,
    pub text: String,
    pub detail: Option<String>,
}

/// The mathematical shadow of a notice.
pub struct NoticeModel {
    pub level: NoticeLevel,
    pub text: Seq<char>,
    pub detail: Option<Seq<char>>,
}

impl View for Notice {
    type V = NoticeModel;

    open spec fn view(&self) -> NoticeModel {
        NoticeModel {
            level: self.level,
            text: self.text@,
            detail: match self.detail {
                Some(d) => Some(d@),
                None => None,
            },
        }
    }
}

/// A per-task reporting sink: a context naming the input it is scoped to,
/// and the notices recorded so far, oldest first.
#[derive(Debug)]
pub struct Reporter {
    context: String,
    notices: Vec<Notice>,
}

impl Reporter {
    /// The input this sink is scoped to.
    pub closed spec fn ctx(&self) -> Seq<char> {
        self.context@
    }

    /// The notices recorded so far, oldest first.
    pub closed spec fn log(&self) -> Seq<NoticeModel> {
        self.notices@.map_values(|n: Notice| n@)
    }

    /// A fresh sink for the input named by `context`, with nothing recorded.
    pub fn new(context: String) -> (r: Reporter)
        ensures
            r.ctx() == context@,
            r.log() == Seq::<NoticeModel>::empty(),
    {
        let r = Reporter { context, notices: Vec::new() };
        proof {
            assert(r.log() =~= Seq::<NoticeModel>::empty());
        }
        r
    }

    /// Records one notice.
    pub fn record(&mut self, level: NoticeLevel, text: &str, detail: Option<String>)
        ensures
            final(self).ctx() == old(self).ctx(),
            final(self).log() == old(self).log().push(
                NoticeModel {
                    level,
                    text: text@,
                    detail: match detail {
                        Some(d) => Some(d@),
                        None => None,
                    },
                },
            ),
    {
        let ghost model = NoticeModel {
            level,
            text: text@,
            detail: match detail {
                Some(ref d) => Some(d@),
                None => None,
            },
        };
        self.notices.push(Notice { level, text: text.to_owned(), detail });
        proof {
            assert(self.log() =~= old(self).log().push(model));
        }
    }

    /// Records a warning with no detail attached.
    pub fn warning(&mut self, text: &str)
        ensures
            final(self).ctx() == old(self).ctx(),
            final(self).log() == old(self).log().push(
                NoticeModel { level: NoticeLevel::Warning, text: text@, detail: None },
            ),
    {
        self.record(NoticeLevel::Warning, text, None);
    }

    /// Records a warning carrying the text that provoked it.
    pub fn warning_with(&mut self, text: &str, detail: String)
        ensures
            final(self).ctx() == old(self).ctx(),
            final(self).log() == old(self).log().push(
                NoticeModel { level: NoticeLevel::Warning, text: text@, detail: Some(detail@) },
            ),
    {
        self.record(NoticeLevel::Warning, text, Some(detail));
    }

    /// Records an error with no detail attached.
    pub fn error(&mut self, text: &str)
        ensures
            final(self).ctx() == old(self).ctx(),
            final(self).log() == old(self).log().push(
                NoticeModel { level: NoticeLevel::Error, text: text@, detail: None },
            ),
    {
        self.record(NoticeLevel::Error, text, None);
    }

    /// Records an error carrying the text of its cause.
    pub fn error_with(&mut self, text: &str, detail: String)
        ensures
            final(self).ctx() == old(self).ctx(),
            final(self).log() == old(self).log().push(
                NoticeModel { level: NoticeLevel::Error, text: text@, detail: Some(detail@) },
            ),
    {
        self.record(NoticeLevel::Error, text, Some(detail));
    }

    /// A borrowed view of the recorded notices, oldest first.
    pub fn notices(&self) -> (r: &Vec<Notice>)
        ensures
            r@.map_values(|n: Notice| n@) == self.log(),
    {
        &self.notices
    }

    /// The context string, for labeling forwarded notices.
    pub fn context(&self) -> (r: &String)
        ensures
            r@ == self.ctx(),
    {
        &self.context
    }
}

} // verus!
