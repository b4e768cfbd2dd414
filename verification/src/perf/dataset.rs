//! Datasets: the request definitions a performance test draws from.

use vstd::prelude::*;
use vstd::string::*;
use crate::error::RurlError;
use crate::http::headers::Headers;
use crate::text::{
    chars_of, copy_text, find_char, first_index, optional_text, string_from, texts_of, trim_bounds,
    trimmed,
};

verus! {

/// One request definition: a method and what it overrides of the base
/// request.
#[derive(Debug)]
pub struct DatasetEntry {
    /// The HTTP method ("GET" unless given).
    pub method: String,
    /// A path appended to the base URL, or an absolute URL.
    pub path: Option<String>,
    /// The request body, as JSON text.
    pub body: Option<String>,
    /// Headers set on top of those of the base request.
    pub headers: Option<Headers>,
}

/// What a dataset entry holds, as mathematical values.
pub struct DatasetEntryView {
    pub method: Seq<char>,
    pub path: Option<Seq<char>>,
    pub body: Option<Seq<char>>,
    pub headers: Option<Map<Seq<char>, Seq<char>>>,
}

impl View for DatasetEntry {
    type V = DatasetEntryView;

    open spec fn view(&self) -> DatasetEntryView {
        DatasetEntryView {
            method: self.method@,
            path: optional_text(self.path),
            body: optional_text(self.body),
            headers: match self.headers {
                Some(h) => Some(h@),
                None => None,
            },
        }
    }
}

/// The entry that overrides nothing: a GET without path, body or headers.
pub open spec fn plain_get() -> DatasetEntryView {
    DatasetEntryView { method: "GET"@, path: None, body: None, headers: None }
}

/// The method of an entry that names none.
pub fn default_method() -> (r: String)
    ensures
        r@ == "GET"@,
{
    String::from_str("GET")
}

impl DatasetEntry {
    /// The entry that overrides nothing.
    pub fn plain() -> (r: Self)
        ensures
            r@ == plain_get(),
    {
        DatasetEntry { method: default_method(), path: None, body: None, headers: None }
    }

    /// The body as JSON text, if there is one.
    pub fn get_body_string(&self) -> (r: Option<String>)
        ensures
            optional_text(r) == self@.body,
    {
        copy_text(&self.body)
    }
}

impl Clone for DatasetEntry {
    fn clone(&self) -> (r: Self)
        ensures
            r@ == self@,
    {
        DatasetEntry {
            method: self.method.clone(),
            path: copy_text(&self.path),
            body: copy_text(&self.body),
            headers: match &self.headers {
                Some(h) => Some(h.clone()),
                None => None,
            },
        }
    }
}

/// The views of a list of entries.
pub open spec fn entry_views(entries: Seq<DatasetEntry>) -> Seq<DatasetEntryView> {
    entries.map_values(|e: DatasetEntry| e@)
}

/// The lines of a text that hold more than whitespace, each without
/// leading and trailing whitespace, in order. Lines end at a line feed.
pub open spec fn nonblank_lines_of(text: Seq<char>) -> Seq<Seq<char>>
    decreases text.len(),
{
    let end = first_index(text, '\n');
    let line = trimmed(text.take(end));
    let head = if line.len() > 0 {
        seq![line]
    } else {
        Seq::<Seq<char>>::empty()
    };
    if 0 <= end < text.len() {
        head + nonblank_lines_of(text.skip(end + 1))
    } else {
        head
    }
}

/// The entry that was read of a line, if one was.
pub open spec fn line_entry(line: Result<DatasetEntry, String>) -> Option<DatasetEntryView> {
    match line {
        Ok(entry) => Some(entry@),
        Err(_) => None,
    }
}

/// The reason given for a line that could not be read as an entry.
pub open spec fn line_reason(line: Result<DatasetEntry, String>) -> Seq<char> {
    match line {
        Ok(_) => Seq::<char>::empty(),
        Err(reason) => reason@,
    }
}

/// Whether line `i` is the first that could not be read as an entry.
pub open spec fn is_first_failure(lines: Seq<Result<DatasetEntry, String>>, i: int) -> bool {
    &&& 0 <= i < lines.len()
    &&& lines[i] is Err
    &&& forall|j: int| 0 <= j < i ==> (#[trigger] lines[j]) is Ok
}

/// The message for a line that could not be read as an entry.
pub open spec fn line_failure(reason: Seq<char>) -> Seq<char> {
    "Failed to parse line: "@ + reason
}

/// An ordered collection of request definitions.
#[derive(Debug)]
pub struct Dataset {
    /// The entries, in the order in which they are used.
    pub entries: Vec<DatasetEntry>,
}

impl View for Dataset {
    type V = Seq<DatasetEntryView>;

    open spec fn view(&self) -> Seq<DatasetEntryView> {
        entry_views(self.entries@)
    }
}

impl Dataset {
    /// A dataset of `count` entries that override nothing. It stands in
    /// where no dataset is given.
    pub fn simple(count: usize) -> (r: Self)
        ensures
            r@.len() == count,
            forall|i: int| 0 <= i < count ==> r@[i] == plain_get(),
    {
        let mut entries: Vec<DatasetEntry> = Vec::new();
        let mut i: usize = 0;
        while i < count
            invariant
                i <= count,
                entries@.len() == i,
                forall|j: int| 0 <= j < i ==> (#[trigger] entries@[j])@ == plain_get(),
            decreases count - i,
        {
            entries.push(DatasetEntry::plain());
            i += 1;
        }
        Dataset { entries }
    }

    /// The dataset a run draws from: the one given, or `count` entries that
    /// override nothing where none is given.
    pub fn or_simple(dataset: Option<Dataset>, count: usize) -> (r: Self)
        ensures
            match dataset {
                Some(given) => r@ == given@,
                None => r@.len() == count && forall|i: int| 0 <= i < count ==> r@[i] == plain_get(),
            },
    {
        match dataset {
            Some(given) => given,
            None => Self::simple(count),
        }
    }

    /// The number of entries.
    pub fn len(&self) -> (r: usize)
        ensures
            r == self@.len(),
    {
        self.entries.len()
    }

    /// Whether the dataset holds no entry.
    pub fn is_empty(&self) -> (r: bool)
        ensures
            r == (self@.len() == 0),
    {
        self.entries.len() == 0
    }

    /// The lines of a text that hold more than whitespace, each without
    /// leading and trailing whitespace: the entries of a dataset written
    /// one JSON document per line.
    pub fn nonblank_lines(content: &str) -> (r: Vec<String>)
        ensures
            texts_of(r@) == nonblank_lines_of(content@),
    {
        let chars = chars_of(content);
        let n = chars.len();
        let mut out: Vec<String> = Vec::new();
        let mut pos: usize = 0;
        let mut done = false;
        proof {
            assert(chars@.subrange(0, n as int) =~= chars@);
            assert(texts_of(out@) + nonblank_lines_of(chars@) =~= nonblank_lines_of(chars@));
        }
        while !done
            invariant
                n == chars@.len(),
                chars@ == content@,
                pos <= n,
                !done ==> texts_of(out@) + nonblank_lines_of(chars@.subrange(pos as int, n as int))
                    == nonblank_lines_of(chars@),
                done ==> texts_of(out@) == nonblank_lines_of(chars@),
            decreases n - pos + if done { 0int } else { 1int },
        {
            let end = find_char(&chars, pos, n, '\n');
            let (a, b) = trim_bounds(&chars, pos, end);
            let ghost rest = chars@.subrange(pos as int, n as int);
            let ghost before = texts_of(out@);
            proof {
                assert(rest.take(end - pos) =~= chars@.subrange(pos as int, end as int));
            }
            if a < b {
                let line = string_from(&chars, a, b);
                out.push(line);
                proof {
                    assert(texts_of(out@) =~= before.push(line@));
                }
            }
            if end >= n {
                proof {
                    assert(texts_of(out@) =~= before + nonblank_lines_of(rest));
                }
                done = true;
            } else {
                proof {
                    assert(rest.skip(end - pos + 1) =~= chars@.subrange(end + 1, n as int));
                    assert(texts_of(out@) + nonblank_lines_of(chars@.subrange(end + 1, n as int))
                        =~= before + nonblank_lines_of(rest));
                }
                pos = end + 1;
            }
        }
        out
    }

    /// Makes a dataset of what was read of the non-blank lines of a text.
    /// The first line that is no entry is reported with the reason given
    /// for it, and a text without any line as an empty dataset.
    pub fn from_lines(lines: Vec<Result<DatasetEntry, String>>) -> (r: Result<Dataset, RurlError>)
        ensures
            match r {
                Ok(d) => {
                    &&& lines@.len() > 0
                    &&& d@.len() == lines@.len()
                    &&& forall|i: int|
                        0 <= i < lines@.len() ==> line_entry(#[trigger] lines@[i]) == Some(d@[i])
                },
                Err(e) => {
                    &&& e is DatasetError
                    &&& if lines@.len() == 0 {
                        e.detail() == "Empty dataset"@
                    } else {
                        exists|i: int|
                            #[trigger] is_first_failure(lines@, i) && e.detail() == line_failure(
                                line_reason(lines@[i]),
                            )
                    }
                },
            },
    {
        let mut entries: Vec<DatasetEntry> = Vec::new();
        let mut i: usize = 0;
        while i < lines.len()
            invariant
                i <= lines@.len(),
                entries@.len() == i,
                forall|j: int|
                    0 <= j < i ==> line_entry(#[trigger] lines@[j]) == Some(entries@[j]@),
            decreases lines@.len() - i,
        {
            match &lines[i] {
                Ok(entry) => {
                    entries.push(entry.clone());
                },
                Err(reason) => {
                    let message = String::from_str("Failed to parse line: ").concat(
                        reason.as_str(),
                    );
                    let failure = RurlError::DatasetError(message);
                    proof {
                        assert forall|j: int| 0 <= j < i implies (#[trigger] lines@[j]) is Ok by {
                            assert(line_entry(lines@[j]) is Some);
                        }
                        assert(is_first_failure(lines@, i as int));
                        assert(failure.detail() == line_failure(line_reason(lines@[i as int])));
                    }
                    return Err(failure);
                },
            }
            i += 1;
        }
        if entries.len() == 0 {
            return Err(RurlError::DatasetError(String::from_str("Empty dataset")));
        }
        Ok(Dataset { entries })
    }

    /// Makes a dataset of what was read of a text: of the entries of a
    /// JSON array, where the text is one; else of the single entry that
    /// the text is; else of the entries that its non-blank lines are, as
    /// [`Dataset::from_lines`] does.
    pub fn from_parsed(
        array: Option<Vec<DatasetEntry>>,
        object: Option<DatasetEntry>,
        lines: Vec<Result<DatasetEntry, String>>,
    ) -> (r: Result<Dataset, RurlError>)
        ensures
            match (array, object) {
                (Some(entries), _) => r matches Ok(d) && d@ == entry_views(entries@),
                (None, Some(entry)) => r matches Ok(d) && d@ == seq![entry@],
                (None, None) => match r {
                    Ok(d) => {
                        &&& lines@.len() > 0
                        &&& d@.len() == lines@.len()
                        &&& forall|i: int|
                            0 <= i < lines@.len() ==> line_entry(#[trigger] lines@[i]) == Some(
                                d@[i],
                            )
                    },
                    Err(e) => {
                        &&& e is DatasetError
                        &&& if lines@.len() == 0 {
                            e.detail() == "Empty dataset"@
                        } else {
                            exists|i: int|
                                #[trigger] is_first_failure(lines@, i) && e.detail()
                                    == line_failure(line_reason(lines@[i]))
                        }
                    },
                },
            },
    {
        match (array, object) {
            (Some(entries), _) => Ok(Dataset { entries }),
            (None, Some(entry)) => {
                let mut entries: Vec<DatasetEntry> = Vec::new();
                entries.push(entry);
                let d = Dataset { entries };
                assert(d@ =~= seq![entry@]);
                Ok(d)
            },
            (None, None) => Self::from_lines(lines),
        }
    }
}

} // verus!
