//! File references in message texts: finding them, and rewriting each into a
//! link that shows the file's name, kind and size.

use crate::client::{FilesInfoResponseData, FilesInfoResponseDataInfo};
use crate::escape::{attribute_escaped, encode_attribute, encode_minimal, minimal_escaped};
use crate::text::{
    decimal, decimal_string, find_char_from, find_from, first_char_from, first_from, from_chars,
    last_segment, last_segment_of, str_eq, to_chars,
};
use vstd::prelude::*;
use vstd::string::StringExecFns;

verus! {

/// What the address of a shared file starts with. The file's id follows, up
/// to the next space or the end of the text.
pub const FILES_URL_PREFIX: &'static str = "https://files.icq.net/get/";

/// What the service said of one file id: its description, or nothing where
/// the lookup failed.
#[derive(Debug, Clone)]
pub struct FileInfoEntry {
    pub file_id: String,
    pub info: Option<FilesInfoResponseData>,
}

/// A size in bytes for a reader: whole thousands as `kb` below 100,000,
/// whole millions as `mb` below 1,000,000,000, whole thousand millions as
/// `gb` from there on.
pub open spec fn pretty_size_text(size: nat) -> Seq<char> {
    if size < 100_000 {
        decimal(size / 1000) + "kb"@
    } else if size < 1_000_000_000 {
        decimal(size / 1_000_000) + "mb"@
    } else {
        decimal(size / 1_000_000_000) + "gb"@
    }
}

/// Writes a size in bytes for a reader.
pub fn pretty_size(size: usize) -> (out: String)
    ensures
        out@ == pretty_size_text(size as nat),
{
    let size: u64 = size as u64;
    if size < 100_000 {
        decimal_string(size / 1000).concat("kb")
    } else if size < 1_000_000_000 {
        decimal_string(size / 1_000_000).concat("mb")
    } else {
        decimal_string(size / 1_000_000_000).concat("gb")
    }
}

/// The link that stands for a file: its download address, kind, checksum
/// and size as attributes, and its name with the short kind and the size for
/// a reader as the text.
pub open spec fn file_html(info: FilesInfoResponseDataInfo) -> Seq<char> {
    "<a href=\""@ + attribute_escaped(info.dlink@) + "\" class=\"file\" data-mime=\""@
        + attribute_escaped(info.mime@) + "\" data-md5=\""@ + attribute_escaped(info.md5@)
        + "\" data-filesize=\""@ + decimal(info.file_size as nat) + "\">"@ + minimal_escaped(
        info.file_name@,
    ) + " ["@ + minimal_escaped(last_segment(info.mime@, '/')) + " "@ + pretty_size_text(
        info.file_size as nat,
    ) + "]</a>"@
}

/// Writes the link that stands for a file.
pub fn format_file_info(file_info: &FilesInfoResponseData) -> (html: String)
    ensures
        html@ == file_html(file_info.info),
{
    let info = &file_info.info;
    let pretty_mime = last_segment_of(info.mime.as_str(), '/');
    let mut html = String::new();
    html.append("<a href=\"");
    html.append(encode_attribute(info.dlink.as_str()).as_str());
    html.append("\" class=\"file\" data-mime=\"");
    html.append(encode_attribute(info.mime.as_str()).as_str());
    html.append("\" data-md5=\"");
    html.append(encode_attribute(info.md5.as_str()).as_str());
    html.append("\" data-filesize=\"");
    html.append(decimal_string(info.file_size as u64).as_str());
    html.append("\">");
    html.append(encode_minimal(info.file_name.as_str()).as_str());
    html.append(" [");
    html.append(encode_minimal(pretty_mime.as_str()).as_str());
    html.append(" ");
    html.append(pretty_size(info.file_size).as_str());
    html.append("]</a>");
    assert(html@ =~= file_html(file_info.info));
    html
}

/// The next file reference at or after `from`: where it starts, and where
/// its id ends.
pub open spec fn next_ref(msg: Seq<char>, from: int) -> Option<(int, int)> {
    match first_from(msg, FILES_URL_PREFIX@, from) {
        Some(start) => Some(
            (start, first_char_from(msg, ' ', start + FILES_URL_PREFIX@.len())),
        ),
        None => None,
    }
}

/// The id of the file reference that spans `msg[start..end]`.
pub open spec fn ref_id(msg: Seq<char>, start: int, end: int) -> Seq<char> {
    msg.subrange(start + FILES_URL_PREFIX@.len(), end)
}

/// The description that the table holds for a file id: that of the first
/// entry for the id, where the lookup succeeded.
pub open spec fn info_for(files: Seq<FileInfoEntry>, id: Seq<char>) -> Option<
    FilesInfoResponseDataInfo,
>
    decreases files.len(),
{
    if files.len() == 0 {
        None
    } else if files[0].file_id@ == id {
        match files[0].info {
            Some(data) => Some(data.info),
            None => None,
        }
    } else {
        info_for(files.drop_first(), id)
    }
}

/// What a file reference becomes: the file's link where the table describes
/// the file, the reference as it stands otherwise.
pub open spec fn link_text(msg: Seq<char>, files: Seq<FileInfoEntry>, start: int, end: int) -> Seq<
    char,
> {
    match info_for(files, ref_id(msg, start, end)) {
        Some(info) => file_html(info),
        None => msg.subrange(start, end),
    }
}

/// The text from `pos` on with every file reference rewritten.
pub open spec fn rewritten_from(msg: Seq<char>, files: Seq<FileInfoEntry>, pos: int) -> Seq<char>
    decreases msg.len() - pos,
{
    match next_ref(msg, pos) {
        Some((start, end)) => if pos <= start < end <= msg.len() {
            msg.subrange(pos, start) + link_text(msg, files, start, end) + rewritten_from(
                msg,
                files,
                end,
            )
        } else {
            msg.subrange(pos, msg.len() as int)
        },
        None => msg.subrange(pos, msg.len() as int),
    }
}

/// The text with every file reference rewritten: references are taken from
/// left to right, each from the address prefix to the next space or the end
/// of the text, the search for the next one starting behind it.
pub open spec fn rewritten(msg: Seq<char>, files: Seq<FileInfoEntry>) -> Seq<char> {
    rewritten_from(msg, files, 0)
}

/// The ids of the file references from `pos` on, in order, repeats included.
pub open spec fn ref_ids_from(msg: Seq<char>, pos: int) -> Seq<Seq<char>>
    decreases msg.len() - pos,
{
    match next_ref(msg, pos) {
        Some((start, end)) => if pos <= start < end <= msg.len() {
            seq![ref_id(msg, start, end)] + ref_ids_from(msg, end)
        } else {
            Seq::empty()
        },
        None => Seq::empty(),
    }
}

/// A text without the address prefix has no file reference, and rewriting
/// leaves it as it is.
pub proof fn lemma_no_reference_unchanged(msg: Seq<char>, files: Seq<FileInfoEntry>)
    requires
        first_from(msg, FILES_URL_PREFIX@, 0) is None,
    ensures
        rewritten(msg, files) == msg,
        ref_ids_from(msg, 0) == Seq::<Seq<char>>::empty(),
{
    assert(msg.subrange(0, msg.len() as int) =~= msg);
}

fn lookup_file<'a>(files: &'a Vec<FileInfoEntry>, id: &str) -> (found: Option<
    &'a FilesInfoResponseData,
>)
    ensures
        match found {
            Some(data) => info_for(files@, id@) == Some(data.info),
            None => info_for(files@, id@) is None,
        },
{
    let mut k: usize = 0;
    proof {
        assert(files@.subrange(0, files@.len() as int) =~= files@);
    }
    while k < files.len()
        invariant
            k <= files@.len(),
            info_for(files@, id@) == info_for(files@.subrange(k as int, files@.len() as int), id@),
        decreases files@.len() - k,
    {
        let ghost rest = files@.subrange(k as int, files@.len() as int);
        proof {
            assert(rest.len() > 0);
            assert(rest[0] == files@[k as int]);
            assert(rest.drop_first() =~= files@.subrange(k + 1, files@.len() as int));
        }
        if str_eq(files[k].file_id.as_str(), id) {
            return match &files[k].info {
                Some(data) => Some(data),
                None => None,
            };
        }
        k += 1;
    }
    proof {
        assert(files@.subrange(k as int, files@.len() as int).len() == 0);
    }
    None
}

/// Rewrites the file references of a message text into links, with the
/// descriptions that the table holds.
pub fn process_message_files(message: &str, files: &Vec<FileInfoEntry>) -> (out: String)
    ensures
        out@ == rewritten(message@, files@),
{
    let chars = to_chars(message);
    let prefix = to_chars(FILES_URL_PREFIX);
    proof {
        reveal_strlit("https://files.icq.net/get/");
    }
    let mut out = String::new();
    let total: usize = chars.len();
    let mut pos: usize = 0;
    let mut done = false;
    while !done
        invariant
            pos <= chars@.len() == total,
            chars@ == message@,
            prefix@ == FILES_URL_PREFIX@,
            prefix@.len() == 26,
            !done ==> out@ + rewritten_from(chars@, files@, pos as int) == rewritten(
                chars@,
                files@,
            ),
            done ==> out@ == rewritten(chars@, files@),
        decreases chars@.len() - pos + (if done { 0int } else { 1int }),
    {
        match find_from(&chars, &prefix, pos) {
            Some(start) => {
                let id_start: usize = start + prefix.len();
                let end = find_char_from(&chars, ' ', id_start);
                let id = from_chars(&chars, id_start, end);
                let before = from_chars(&chars, pos, start);
                let ghost at_start = out@;
                out.append(before.as_str());
                match lookup_file(files, id.as_str()) {
                    Some(data) => {
                        let html = format_file_info(data);
                        out.append(html.as_str());
                    },
                    None => {
                        let reference = from_chars(&chars, start, end);
                        out.append(reference.as_str());
                    },
                }
                proof {
                    assert(next_ref(chars@, pos as int) == Some((start as int, end as int)));
                    assert(out@ == at_start + chars@.subrange(pos as int, start as int) + link_text(
                        chars@,
                        files@,
                        start as int,
                        end as int,
                    ));
                    assert(out@ + rewritten_from(chars@, files@, end as int) =~= at_start
                        + rewritten_from(chars@, files@, pos as int));
                }
                pos = end;
            },
            None => {
                let rest = from_chars(&chars, pos, chars.len());
                out.append(rest.as_str());
                done = true;
            },
        }
    }
    out
}

/// The ids of the file references of a message text, in order, repeats
/// included.
pub fn message_file_ids(message: &str) -> (ids: Vec<String>)
    ensures
        ids@.len() == ref_ids_from(message@, 0).len(),
        forall|i: int| 0 <= i < ids@.len() ==> (#[trigger] ids@[i])@ == ref_ids_from(message@, 0)[i],
{
    let chars = to_chars(message);
    let prefix = to_chars(FILES_URL_PREFIX);
    proof {
        reveal_strlit("https://files.icq.net/get/");
    }
    let mut ids: Vec<String> = Vec::new();
    let ghost mut found: Seq<Seq<char>> = Seq::empty();
    let total: usize = chars.len();
    let mut pos: usize = 0;
    let mut done = false;
    while !done
        invariant
            pos <= chars@.len() == total,
            chars@ == message@,
            prefix@ == FILES_URL_PREFIX@,
            prefix@.len() == 26,
            ids@.len() == found.len(),
            forall|i: int| 0 <= i < ids@.len() ==> (#[trigger] ids@[i])@ == found[i],
            !done ==> found + ref_ids_from(chars@, pos as int) == ref_ids_from(chars@, 0),
            done ==> found == ref_ids_from(chars@, 0),
        decreases chars@.len() - pos + (if done { 0int } else { 1int }),
    {
        match find_from(&chars, &prefix, pos) {
            Some(start) => {
                let id_start: usize = start + prefix.len();
                let end = find_char_from(&chars, ' ', id_start);
                let id = from_chars(&chars, id_start, end);
                proof {
                    assert(next_ref(chars@, pos as int) == Some((start as int, end as int)));
                    assert(found.push(id@) + ref_ids_from(chars@, end as int) =~= found
                        + ref_ids_from(chars@, pos as int));
                    found = found.push(id@);
                }
                ids.push(id);
                pos = end;
            },
            None => {
                proof {
                    assert(found + Seq::<Seq<char>>::empty() =~= found);
                }
                done = true;
            },
        }
    }
    ids
}

} // verus!
