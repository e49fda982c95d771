//! The listing of a directory: what is written for it, and the status.

use vstd::prelude::*;
use vstd::string::StringExecFns;
use crate::util::text::joined;

verus! {

/// The status of a listing of something that is no directory.
pub const NOT_A_DIRECTORY: i32 = 6;

/// The status of a listing whose directory could not be read.
pub const UNREADABLE: i32 = 2;

/// The status of a listing that an entry stopped.
pub const ENTRY_FAILED: i32 = 3;

/// One entry of a directory.
#[derive(Debug, Clone, PartialEq, Eq)]
pub struct Entry {
    pub is_dir: bool,
    pub file_name: String,
}

/// An entry as a mathematical value.
pub struct EntryView {
    pub is_dir: bool,
    pub file_name: Seq<char>,
}

impl View for Entry {
    type V = EntryView;

    open spec fn view(&self) -> EntryView {
        EntryView { is_dir: self.is_dir, file_name: self.file_name@ }
    }
}

/// The entries of a vector, each as a mathematical value.
pub open spec fn entry_views(entries: Seq<Entry>) -> Seq<EntryView> {
    Seq::new(entries.len(), |i: int| entries[i]@)
}

/// What was found at the path that is to be listed.
#[derive(Debug, Clone, PartialEq, Eq)]
pub enum Listing {
    /// The path names no directory.
    NotADirectory,
    /// The directory could not be read; the text is the system's error.
    Unreadable(String),
    /// The entries that were read, in the order in which the system handed
    /// them out, and the system's error where one of them stopped the
    /// reading.
    Entries(Vec<Entry>, Option<String>),
}

/// What was found, as a mathematical value.
pub enum ListingView {
    NotADirectory,
    Unreadable(Seq<char>),
    Entries(Seq<EntryView>, Option<Seq<char>>),
}

impl View for Listing {
    type V = ListingView;

    open spec fn view(&self) -> ListingView {
        match *self {
            Listing::NotADirectory => ListingView::NotADirectory,
            Listing::Unreadable(e) => ListingView::Unreadable(e@),
            Listing::Entries(entries, failure) => ListingView::Entries(
                entry_views(entries@),
                match failure {
                    Some(e) => Some(e@),
                    None => None,
                },
            ),
        }
    }
}

/// What a listing comes to: the text for standard output, the diagnostic for
/// standard error, and the status.
#[derive(Debug, Clone, PartialEq, Eq)]
pub struct Report {
    pub output: String,
    pub diagnostic: Option<String>,
    pub status: Option<i32>,
}

/// A report as a mathematical value.
pub struct ReportView {
    pub output: Seq<char>,
    pub diagnostic: Option<Seq<char>>,
    pub status: Option<i32>,
}

impl View for Report {
    type V = ReportView;

    open spec fn view(&self) -> ReportView {
        ReportView {
            output: self.output@,
            diagnostic: match self.diagnostic {
                Some(text) => Some(text@),
                None => None,
            },
            status: self.status,
        }
    }
}

/// The line of one entry: its kind, a colon, a tab and its name.
pub open spec fn line_text(is_dir: bool, file_name: Seq<char>) -> Seq<char> {
    (if is_dir {
        "Dir "@
    } else {
        "File"@
    }) + " :\t"@ + file_name + "\n"@
}

/// The lines of the entries, in order.
pub open spec fn lines_text(entries: Seq<EntryView>) -> Seq<char>
    decreases entries.len(),
{
    if entries.len() == 0 {
        Seq::empty()
    } else {
        lines_text(entries.drop_last()) + line_text(
            entries.last().is_dir,
            entries.last().file_name,
        )
    }
}

/// The head of a listing: the directory's path, then the directory itself
/// and its parent.
pub open spec fn head_text(dir: Seq<char>) -> Seq<char> {
    "\t"@ + dir + " >\n"@ + line_text(true, "."@) + line_text(true, ".."@)
}

/// What a listing of `dir` comes to. No directory: nothing is written, and
/// the status is [`NOT_A_DIRECTORY`]. Else the head is written; where the
/// directory cannot be read the status is [`UNREADABLE`]; else a line is
/// written for each entry read, and the status is [`ENTRY_FAILED`] where an
/// entry stopped the reading, and 0 where none did.
pub open spec fn listing_report(dir: Seq<char>, found: ListingView) -> ReportView {
    match found {
        ListingView::NotADirectory => ReportView {
            output: Seq::empty(),
            diagnostic: Some("Given path is not a directory"@),
            status: Some(NOT_A_DIRECTORY),
        },
        ListingView::Unreadable(e) => ReportView {
            output: head_text(dir),
            diagnostic: Some("Error occured: "@ + e),
            status: Some(UNREADABLE),
        },
        ListingView::Entries(entries, failure) => ReportView {
            output: head_text(dir) + lines_text(entries),
            diagnostic: match failure {
                Some(e) => Some("Error occured: "@ + e),
                None => None,
            },
            status: Some(
                if failure is Some {
                    ENTRY_FAILED
                } else {
                    0i32
                },
            ),
        },
    }
}

/// Goes through the entries of a directory: writes a line for each and
/// counts them.
pub struct LsVisitor {
    /// How many entries have been visited.
    pub id: usize,
    /// The lines written so far.
    pub text: String,
}

impl LsVisitor {
    pub fn new() -> (visitor: LsVisitor)
        ensures
            visitor.id == 0,
            visitor.text@ == Seq::<char>::empty(),
    {
        LsVisitor { id: 0, text: String::new() }
    }

    /// Visits an entry.
    pub fn visit(&mut self, entry: &Entry)
        requires
            old(self).id < usize::MAX,
        ensures
            final(self).id == old(self).id + 1,
            final(self).text@ == old(self).text@ + line_text(entry.is_dir, entry.file_name@),
    {
        self.visit_from_str(entry.is_dir, entry.file_name.as_str());
    }

    /// Visits an entry given by its kind and its name.
    pub fn visit_from_str(&mut self, is_dir: bool, file_name: &str)
        requires
            old(self).id < usize::MAX,
        ensures
            final(self).id == old(self).id + 1,
            final(self).text@ == old(self).text@ + line_text(is_dir, file_name@),
    {
        let mut line = String::from_str(
            if is_dir {
                "Dir "
            } else {
                "File"
            },
        );
        line.append(" :\t");
        line.append(file_name);
        line.append("\n");
        self.text.append(line.as_str());
        self.id += 1;
    }

    /// Visits a directory given by its name.
    pub fn visit_dir_from_str(&mut self, file_name: &str)
        requires
            old(self).id < usize::MAX,
        ensures
            final(self).id == old(self).id + 1,
            final(self).text@ == old(self).text@ + line_text(true, file_name@),
    {
        self.visit_from_str(true, file_name);
    }
}

/// A visitor that has written the head of the listing of `dir`.
fn visit_head(dir: &str) -> (visitor: LsVisitor)
    ensures
        visitor.id == 2,
        visitor.text@ == head_text(dir@),
{
    let mut visitor = LsVisitor::new();
    visitor.text.append("\t");
    visitor.text.append(dir);
    visitor.text.append(" >\n");
    visitor.visit_dir_from_str(".");
    visitor.visit_dir_from_str("..");
    assert(visitor.text@ =~= head_text(dir@));
    visitor
}

/// Lists the directory `dir`, given what was found there.
pub fn ls_dir(dir: &str, found: Listing) -> (report: Report)
    requires
        found matches Listing::Entries(entries, _) ==> entries@.len() + 2 <= usize::MAX,
    ensures
        report@ == listing_report(dir@, found@),
{
    match found {
        Listing::NotADirectory => Report {
            output: String::new(),
            diagnostic: Some(String::from_str("Given path is not a directory")),
            status: Some(NOT_A_DIRECTORY),
        },
        Listing::Unreadable(e) => Report {
            output: visit_head(dir).text,
            diagnostic: Some(joined("Error occured: ", e.as_str())),
            status: Some(UNREADABLE),
        },
        Listing::Entries(entries, failure) => {
            let mut visitor = visit_head(dir);
            let ghost views = entry_views(entries@);
            let mut i: usize = 0;
            assert(views.subrange(0, 0) =~= Seq::<EntryView>::empty());
            assert(visitor.text@ + Seq::<char>::empty() =~= visitor.text@);
            while i < entries.len()
                invariant
                    i <= entries.len(),
                    entries@.len() + 2 <= usize::MAX,
                    views == entry_views(entries@),
                    visitor.id == i + 2,
                    visitor.text@ == head_text(dir@) + lines_text(views.subrange(0, i as int)),
                decreases entries.len() - i,
            {
                let ghost before = views.subrange(0, i as int);
                visitor.visit(&entries[i]);
                i += 1;
                proof {
                    let now = views.subrange(0, i as int);
                    assert(now.drop_last() =~= before);
                    assert(now.last() == entries@[i - 1]@);
                    assert(visitor.text@ =~= head_text(dir@) + lines_text(now));
                }
            }
            assert(views.subrange(0, i as int) =~= views);
            match failure {
                Some(e) => Report {
                    output: visitor.text,
                    diagnostic: Some(joined("Error occured: ", e.as_str())),
                    status: Some(ENTRY_FAILED),
                },
                None => Report { output: visitor.text, diagnostic: None, status: Some(0) },
            }
        },
    }
}

} // verus!
