//! The capability surface of a clipboard, and the batch read built on it.

use vstd::prelude::*;
use crate::content::{ClipboardContent, ContentData, ContentFormat};
use crate::error::ClipboardError;
use crate::image_data::RustImageData;

verus! {

/// What an application can do with the system clipboard. Each call is one
/// self-contained interaction with it; a failure of the platform is handed
/// to the caller, and nothing is retried.
pub trait Clipboard: Send {
    /// What a read of `format` may yield: the content that the accessor
    /// for that format delivered, or `None` where it failed. Each clipboard
    /// says this of itself; one that says nothing allows every answer.
    open spec fn may_deliver(&self, format: ContentFormat, entry: Option<ClipboardContent>) -> bool {
        true
    }

    /// The names of the formats that the clipboard currently holds.
    fn available_formats(&self) -> Result<Vec<String>, ClipboardError>;

    /// Whether the clipboard holds content in a format.
    fn has(&self, format: ContentFormat) -> bool;

    /// Empties the clipboard.
    fn clear(&self) -> Result<(), ClipboardError>;

    /// The raw bytes held under a format name.
    fn get_buffer(&self, format: &str) -> (answer: Result<Vec<u8>, ClipboardError>)
        ensures
            forall|name: String|
                name@ == format@ ==> self.may_deliver(
                    ContentFormat::Other(name),
                    #[trigger] wrapped_buffer(answer, name),
                ),
    ;

    /// The plain text on the clipboard.
    fn get_text(&self) -> (answer: Result<String, ClipboardError>)
        ensures
            self.may_deliver(ContentFormat::Text, wrapped_text(answer, ContentFormat::Text)),
    ;

    /// The rich text on the clipboard.
    fn get_rich_text(&self) -> (answer: Result<String, ClipboardError>)
        ensures
            self.may_deliver(ContentFormat::Rtf, wrapped_text(answer, ContentFormat::Rtf)),
    ;

    /// The HTML on the clipboard.
    fn get_html(&self) -> (answer: Result<String, ClipboardError>)
        ensures
            self.may_deliver(ContentFormat::Html, wrapped_text(answer, ContentFormat::Html)),
    ;

    /// The image on the clipboard.
    fn get_image(&self) -> (answer: Result<RustImageData, ClipboardError>)
        ensures
            self.may_deliver(ContentFormat::Image, wrapped_image(answer)),
    ;

    /// The file paths on the clipboard, in the order it reports them.
    fn get_files(&self) -> (answer: Result<Vec<String>, ClipboardError>)
        ensures
            self.may_deliver(ContentFormat::Files, wrapped_files(answer)),
    ;

    /// The content in each of the formats asked for that the clipboard
    /// holds, in the order asked.
    fn get(&self, formats: &[ContentFormat]) -> Result<Vec<ClipboardContent>, ClipboardError>;

    /// Stores raw bytes under a format name.
    fn set_buffer(&self, format: &str, buffer: Vec<u8>) -> Result<(), ClipboardError>;

    /// Replaces the plain text on the clipboard.
    fn set_text(&self, text: String) -> Result<(), ClipboardError>;

    /// Replaces the rich text on the clipboard.
    fn set_rich_text(&self, text: String) -> Result<(), ClipboardError>;

    /// Replaces the HTML on the clipboard.
    fn set_html(&self, html: String) -> Result<(), ClipboardError>;

    /// Replaces the image on the clipboard.
    fn set_image(&self, image: RustImageData) -> Result<(), ClipboardError>;

    /// Replaces the file list on the clipboard.
    fn set_files(&self, files: Vec<String>) -> Result<(), ClipboardError>;

    /// Makes all the given contents available at once.
    fn set(&self, contents: Vec<ClipboardContent>) -> Result<(), ClipboardError>;
}

/// The entries that were found among a row of lookups, in their order.
pub open spec fn present_entries(lookups: Seq<Option<ClipboardContent>>) -> Seq<ClipboardContent>
    decreases lookups.len(),
{
    if lookups.len() == 0 {
        Seq::empty()
    } else {
        match lookups.last() {
            Some(entry) => present_entries(lookups.drop_last()).push(entry),
            None => present_entries(lookups.drop_last()),
        }
    }
}

/// Whether `lookups` answers `formats` one for one: each lookup that found
/// something found content in the format asked for at its place.
pub open spec fn answers(
    lookups: Seq<Option<ClipboardContent>>,
    formats: Seq<ContentFormat>,
) -> bool {
    &&& lookups.len() == formats.len()
    &&& forall|i: int|
        0 <= i < lookups.len() && (#[trigger] lookups[i]) is Some
            ==> lookups[i]->Some_0.spec_format() == formats[i]
}

/// Looking one more format up extends the entries found by what that
/// lookup found, and by nothing where it found nothing.
pub proof fn lemma_present_entries_push(
    lookups: Seq<Option<ClipboardContent>>,
    lookup: Option<ClipboardContent>,
)
    ensures
        present_entries(lookups.push(lookup)) == match lookup {
            Some(entry) => present_entries(lookups).push(entry),
            None => present_entries(lookups),
        },
{
    assert(lookups.push(lookup).drop_last() =~= lookups);
    assert(lookups.push(lookup).last() == lookup);
}

/// A batch read never returns more entries than formats were asked for.
pub proof fn lemma_present_entries_len(lookups: Seq<Option<ClipboardContent>>)
    ensures
        present_entries(lookups).len() <= lookups.len(),
    decreases lookups.len(),
{
    if lookups.len() > 0 {
        lemma_present_entries_len(lookups.drop_last());
    }
}

/// What a text accessor's answer is as content of a format: the text
/// under that format; nothing for a failure or a format without text.
pub open spec fn wrapped_text(
    delivered: Result<String, ClipboardError>,
    format: ContentFormat,
) -> Option<ClipboardContent> {
    match (delivered, format) {
        (Ok(text), ContentFormat::Text) => Some(ClipboardContent::Text(text)),
        (Ok(text), ContentFormat::Rtf) => Some(ClipboardContent::Rtf(text)),
        (Ok(text), ContentFormat::Html) => Some(ClipboardContent::Html(text)),
        _ => None,
    }
}

/// What the image accessor's answer is as content.
pub open spec fn wrapped_image(delivered: Result<RustImageData, ClipboardError>) -> Option<
    ClipboardContent,
> {
    match delivered {
        Ok(image) => Some(ClipboardContent::Image(image)),
        Err(_) => None,
    }
}

/// What the file accessor's answer is as content.
pub open spec fn wrapped_files(delivered: Result<Vec<String>, ClipboardError>) -> Option<
    ClipboardContent,
> {
    match delivered {
        Ok(files) => Some(ClipboardContent::Files(files)),
        Err(_) => None,
    }
}

/// What the raw accessor's answer for a format name is as content.
pub open spec fn wrapped_buffer(delivered: Result<Vec<u8>, ClipboardError>, name: String) -> Option<
    ClipboardContent,
> {
    match delivered {
        Ok(buffer) => Some(ClipboardContent::Other(name, buffer)),
        Err(_) => None,
    }
}

/// Turns what a text accessor delivered into content of the format it
/// was asked for: the text under that format. Nothing where the accessor
/// failed, and nothing for a format that does not carry text.
pub fn wrap_text(delivered: Result<String, ClipboardError>, format: &ContentFormat) -> (entry:
    Option<ClipboardContent>)
    ensures
        entry == wrapped_text(delivered, *format),
{
    match delivered {
        Ok(text) => match format {
            ContentFormat::Text => Some(ClipboardContent::Text(text)),
            ContentFormat::Rtf => Some(ClipboardContent::Rtf(text)),
            ContentFormat::Html => Some(ClipboardContent::Html(text)),
            _ => None,
        },
        Err(_) => None,
    }
}

/// Turns what the image accessor delivered into image content, or into
/// nothing where it failed.
pub fn wrap_image(delivered: Result<RustImageData, ClipboardError>) -> (entry: Option<
    ClipboardContent,
>)
    ensures
        entry == wrapped_image(delivered),
{
    match delivered {
        Ok(image) => Some(ClipboardContent::Image(image)),
        Err(_) => None,
    }
}

/// Turns what the file accessor delivered into a file list, paths in the
/// order delivered, or into nothing where it failed.
pub fn wrap_files(delivered: Result<Vec<String>, ClipboardError>) -> (entry: Option<
    ClipboardContent,
>)
    ensures
        entry == wrapped_files(delivered),
{
    match delivered {
        Ok(files) => Some(ClipboardContent::Files(files)),
        Err(_) => None,
    }
}

/// Turns what the raw accessor delivered for a format name into opaque
/// content under that name, bytes untouched, or into nothing where it
/// failed.
pub fn wrap_buffer(delivered: Result<Vec<u8>, ClipboardError>, name: &String) -> (entry: Option<
    ClipboardContent,
>)
    ensures
        entry == wrapped_buffer(delivered, *name),
{
    match delivered {
        Ok(buffer) => Some(ClipboardContent::Other(name.clone(), buffer)),
        Err(_) => None,
    }
}

/// Reads one format through the typed accessor that belongs to it, and
/// returns what that accessor delivered, as content. A format that the
/// clipboard does not hold, or fails to deliver, gives `None`; content
/// that is delivered is in the format asked for. Which of the two happens
/// is the clipboard's to say.
pub fn read_format<C: Clipboard>(clipboard: &C, format: &ContentFormat) -> (entry: Option<
    ClipboardContent,
>)
    ensures
        clipboard.may_deliver(*format, entry),
        entry is Some ==> entry->Some_0.spec_format() == *format,
{
    match format {
        ContentFormat::Text => wrap_text(clipboard.get_text(), format),
        ContentFormat::Rtf => wrap_text(clipboard.get_rich_text(), format),
        ContentFormat::Html => wrap_text(clipboard.get_html(), format),
        ContentFormat::Image => wrap_image(clipboard.get_image()),
        ContentFormat::Files => wrap_files(clipboard.get_files()),
        ContentFormat::Other(name) => wrap_buffer(clipboard.get_buffer(name.as_str()), name),
    }
}

/// Keeps the entries that a row of lookups found, in the order of the
/// lookups, and drops the lookups that found nothing.
pub fn keep_found(lookups: Vec<Option<ClipboardContent>>) -> (found: Vec<ClipboardContent>)
    ensures
        found@ == present_entries(lookups@),
{
    let mut found: Vec<ClipboardContent> = Vec::new();
    let ghost all = lookups@;
    for entry in it: lookups
        invariant
            it.seq() == all,
            found@ == present_entries(all.take(it.index() as int)),
    {
        proof {
            lemma_present_entries_push(all.take(it.index() as int), entry);
            assert(all.take(it.index() as int).push(entry) =~= all.take(it.index() + 1));
        }
        match entry {
            Some(content) => found.push(content),
            None => {},
        }
    }
    proof {
        assert(all.take(all.len() as int) =~= all);
    }
    found
}

/// Whether every lookup of a row is what the clipboard delivered for the
/// format at its place.
pub open spec fn delivered_by<C: Clipboard>(
    clipboard: &C,
    lookups: Seq<Option<ClipboardContent>>,
    formats: Seq<ContentFormat>,
) -> bool {
    forall|k: int|
        0 <= k < lookups.len() && k < formats.len() ==> clipboard.may_deliver(
            formats[k],
            #[trigger] lookups[k],
        )
}

/// Reads each of `formats` in turn and keeps what was found: the result
/// is what is present in the row of answers that the clipboard delivered,
/// one for each format. A format that is not present is left out, never an
/// error; the entries that are found come in the order in which their
/// formats were asked for, each in the format asked for.
pub fn read_all<C: Clipboard>(clipboard: &C, formats: &[ContentFormat]) -> (found: Vec<
    ClipboardContent,
>)
    ensures
        exists|lookups: Seq<Option<ClipboardContent>>|
            answers(lookups, formats@) && delivered_by(clipboard, lookups, formats@) && found@
                == #[trigger] present_entries(lookups),
        found@.len() <= formats@.len(),
{
    let mut lookups: Vec<Option<ClipboardContent>> = Vec::new();
    let mut i: usize = 0;
    while i < formats.len()
        invariant
            i <= formats.len(),
            lookups@.len() == i,
            forall|k: int|
                0 <= k < lookups@.len() && (#[trigger] lookups@[k]) is Some
                    ==> lookups@[k]->Some_0.spec_format() == formats@[k],
            forall|k: int|
                0 <= k < lookups@.len() ==> clipboard.may_deliver(
                    formats@[k],
                    #[trigger] lookups@[k],
                ),
        decreases formats.len() - i,
    {
        let entry = read_format(clipboard, &formats[i]);
        lookups.push(entry);
        i = i + 1;
    }
    proof {
        lemma_present_entries_len(lookups@);
        assert(answers(lookups@, formats@));
        assert(delivered_by(clipboard, lookups@, formats@));
    }
    keep_found(lookups)
}

/// The place among the lookups of the entry that comes out at place `j`.
pub open spec fn source_index(lookups: Seq<Option<ClipboardContent>>, j: int) -> int
    decreases lookups.len(),
{
    if lookups.len() == 0 {
        0
    } else if lookups.last() is Some && j == present_entries(lookups.drop_last()).len() {
        lookups.len() - 1
    } else {
        source_index(lookups.drop_last(), j)
    }
}

/// Every entry that comes out was found by one of the lookups: the one at
/// its source index.
pub proof fn lemma_entry_has_source(lookups: Seq<Option<ClipboardContent>>, j: int)
    requires
        0 <= j < present_entries(lookups).len(),
    ensures
        0 <= source_index(lookups, j) < lookups.len(),
        lookups[source_index(lookups, j)] == Some(present_entries(lookups)[j]),
    decreases lookups.len(),
{
    if lookups.len() > 0 {
        let rest = lookups.drop_last();
        if lookups.last() is Some && j == present_entries(rest).len() {
        } else {
            lemma_entry_has_source(rest, j);
        }
    }
}

/// Entries come out in the order of the lookups that found them.
pub proof fn lemma_entries_keep_order(lookups: Seq<Option<ClipboardContent>>, j1: int, j2: int)
    requires
        0 <= j1 < j2 < present_entries(lookups).len(),
    ensures
        source_index(lookups, j1) < source_index(lookups, j2),
    decreases lookups.len(),
{
    if lookups.len() > 0 {
        let rest = lookups.drop_last();
        if lookups.last() is Some && j2 == present_entries(rest).len() {
            lemma_entry_has_source(rest, j1);
        } else {
            lemma_entries_keep_order(rest, j1, j2);
        }
    }
}

/// A lookup that found something is not lost: its entry comes out.
pub proof fn lemma_found_entry_comes_out(lookups: Seq<Option<ClipboardContent>>, i: int)
    requires
        0 <= i < lookups.len(),
        lookups[i] is Some,
    ensures
        present_entries(lookups).contains(lookups[i]->Some_0),
    decreases lookups.len(),
{
    let rest = lookups.drop_last();
    if i == lookups.len() - 1 {
        let out = present_entries(lookups);
        assert(out[out.len() - 1] == lookups[i]->Some_0);
    } else {
        lemma_found_entry_comes_out(rest, i);
        let entry = lookups[i]->Some_0;
        let k = choose|k: int| 0 <= k < present_entries(rest).len() && present_entries(rest)[k] == entry;
        assert(present_entries(lookups)[k] == entry);
    }
}

/// In a batch read, every entry returned is in a format that was asked
/// for, at the place of the lookup that found it.
pub proof fn lemma_entry_format_was_asked(
    lookups: Seq<Option<ClipboardContent>>,
    formats: Seq<ContentFormat>,
    j: int,
)
    requires
        answers(lookups, formats),
        0 <= j < present_entries(lookups).len(),
    ensures
        0 <= source_index(lookups, j) < formats.len(),
        present_entries(lookups)[j].spec_format() == formats[source_index(lookups, j)],
{
    lemma_entry_has_source(lookups, j);
}

} // verus!
