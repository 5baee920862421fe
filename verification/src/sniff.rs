//! Content sniffing: telling Android packages from plain archives and naming
//! a payload after what its leading bytes reveal.

use vstd::prelude::*;
use vstd::string::*;
use crate::text::{contains_char, ends_with, has_char, has_prefix, same_text, starts_with};

verus! {

/// Whether `needle` occurs in `hay` starting at offset `at`.
pub open spec fn occurs_at(hay: Seq<u8>, needle: Seq<u8>, at: int) -> bool {
    0 <= at && at + needle.len() <= hay.len() && hay.subrange(at, at + needle.len()) == needle
}

/// Whether `needle` occurs somewhere in `hay` as a contiguous run.
pub open spec fn contains_bytes(hay: Seq<u8>, needle: Seq<u8>) -> bool {
    exists|at: int| occurs_at(hay, needle, at)
}

/// The first `limit` bytes of `data`, or all of it where it is shorter.
pub open spec fn leading(data: Seq<u8>, limit: int) -> Seq<u8> {
    if 0 <= limit <= data.len() {
        data.subrange(0, limit)
    } else {
        data
    }
}

/// Tests whether `needle` occurs in the first `limit` bytes of `hay`.
pub fn find_bytes(hay: &[u8], limit: usize, needle: &[u8]) -> (found: bool)
    ensures
        found == contains_bytes(leading(hay@, limit as int), needle@),
{
    let end = if limit <= hay.len() {
        limit
    } else {
        hay.len()
    };
    let ghost window = leading(hay@, limit as int);
    assert(window =~= hay@.subrange(0, end as int));
    let m = needle.len();
    if m > end {
        return false;
    }
    let last = end - m;
    let mut at: usize = 0;
    while at <= last
        invariant
            m == needle@.len(),
            end <= hay@.len(),
            last == end - m,
            at <= last + 1,
            window == leading(hay@, limit as int),
            window == hay@.subrange(0, end as int),
            forall|k: int| 0 <= k < at ==> !occurs_at(window, needle@, k),
        decreases last + 1 - at,
    {
        let mut j: usize = 0;
        while j < m && hay[at + j] == needle[j]
            invariant
                m == needle@.len(),
                end <= hay@.len(),
                at + m <= end,
                j <= m,
                window == hay@.subrange(0, end as int),
                forall|k: int| 0 <= k < j ==> window[at + k] == needle@[k],
            decreases m - j,
        {
            j += 1;
        }
        if j == m {
            assert(window.subrange(at as int, at + m) =~= needle@);
            assert(occurs_at(window, needle@, at as int));
            return true;
        }
        assert(!occurs_at(window, needle@, at as int)) by {
            if occurs_at(window, needle@, at as int) {
                assert(window.subrange(at as int, at + m)[j as int] == needle@[j as int]);
            }
        }
        at += 1;
    }
    false
}

/// The four bytes that open a ZIP local file header.
pub open spec fn zip_signature() -> Seq<u8> {
    seq![0x50u8, 0x4Bu8, 0x03u8, 0x04u8]
}

/// The bytes of the text `AndroidManifest`.
pub open spec fn manifest_marker() -> Seq<u8> {
    seq![
        65u8, 110u8, 100u8, 114u8, 111u8, 105u8, 100u8, 77u8, 97u8, 110u8, 105u8, 102u8, 101u8,
        115u8, 116u8,
    ]
}

/// How many leading bytes are searched for the manifest marker.
pub const SNIFF_WINDOW: usize = 8192;

/// The leading bytes of `data` that the marker search looks at.
pub open spec fn sniff_prefix(data: Seq<u8>) -> Seq<u8> {
    leading(data, SNIFF_WINDOW as int)
}

/// Content that is an Android package: it opens with the ZIP signature and
/// names the manifest within the sniffing window.
pub open spec fn is_apk_content(data: Seq<u8>) -> bool {
    data.len() >= 4 && data.subrange(0, 4) == zip_signature() && contains_bytes(
        sniff_prefix(data),
        manifest_marker(),
    )
}

/// Tests whether the manifest marker occurs within the sniffing window.
pub fn has_manifest_marker(data: &[u8]) -> (found: bool)
    ensures
        found == contains_bytes(sniff_prefix(data@), manifest_marker()),
{
    let marker: Vec<u8> = vec![
        65u8, 110u8, 100u8, 114u8, 111u8, 105u8, 100u8, 77u8, 97u8, 110u8, 105u8, 102u8, 101u8,
        115u8, 116u8,
    ];
    find_bytes(data, SNIFF_WINDOW, marker.as_slice())
}

/// Tests content for the Android package heuristic.
pub fn looks_like_apk(data: &[u8]) -> (apk: bool)
    ensures
        apk == is_apk_content(data@),
{
    let n = data.len();
    if n < 4 {
        return false;
    }
    if !(data[0] == 0x50 && data[1] == 0x4B && data[2] == 0x03 && data[3] == 0x04) {
        return false;
    }
    assert(data@.subrange(0, 4) =~= zip_signature());
    has_manifest_marker(data)
}

/// The MIME type of Android packages.
pub open spec fn apk_mime() -> Seq<char> {
    "application/vnd.android.package-archive"@
}

/// The MIME type of content about which nothing is known.
pub open spec fn octet_mime() -> Seq<char> {
    "application/octet-stream"@
}

/// The MIME type of plain ZIP archives.
pub open spec fn zip_mime() -> Seq<char> {
    "application/zip"@
}

/// Whether the name ends in `.apk`, whatever the case of its letters.  The
/// Kelvin sign counts as a `k`, since lowercasing turns it into one.
pub open spec fn names_apk(name: Seq<char>) -> bool {
    let n = name.len() as int;
    n >= 4 && name[n - 4] == '.' && (name[n - 3] == 'a' || name[n - 3] == 'A') && (name[n - 2]
        == 'p' || name[n - 2] == 'P') && (name[n - 1] == 'k' || name[n - 1] == 'K' || name[n - 1]
        == '\u{212A}')
}

/// Tests whether the name ends in `.apk`, ignoring case.
pub fn has_apk_suffix(name: &str) -> (b: bool)
    ensures
        b == names_apk(name@),
{
    let n = name.unicode_len();
    if n < 4 {
        return false;
    }
    let dot = name.get_char(n - 4);
    let a = name.get_char(n - 3);
    let p = name.get_char(n - 2);
    let k = name.get_char(n - 1);
    dot == '.' && (a == 'a' || a == 'A') && (p == 'p' || p == 'P') && (k == 'k' || k == 'K' || k
        == '\u{212A}')
}

/// The MIME type that a payload is tagged with, given the classifier's
/// verdict on its content: the Android package type where the name or the
/// content says so, else the type of the classified kind, and the unknown
/// type where there is no content or the classifier reports nothing.
pub open spec fn mime_for(
    name: Seq<char>,
    data: Option<Seq<u8>>,
    kind: Option<FileKindView>,
) -> Seq<char> {
    if names_apk(name) {
        apk_mime()
    } else {
        match data {
            Some(d) => if is_apk_content(d) {
                apk_mime()
            } else {
                match kind {
                    Some(k) => k.mime,
                    None => octet_mime(),
                }
            },
            None => octet_mime(),
        }
    }
}

/// The classifier's verdict on optional content: none where there is no
/// content.
pub open spec fn classified_content(data: Option<Seq<u8>>) -> Option<FileKindView> {
    match data {
        Some(d) => classified(d),
        None => None,
    }
}

/// The view of optional content.
pub open spec fn content_view(data: Option<&[u8]>) -> Option<Seq<u8>> {
    match data {
        Some(d) => Some(d@),
        None => None,
    }
}

/// Picks the MIME type for an outgoing file from its name, its content
/// where that is at hand, and the classifier's verdict on the content.
pub fn mime_type_for(file_name: &str, file_data: Option<&[u8]>, kind: Option<FileKind>) -> (mime:
    String)
    ensures
        mime@ == mime_for(file_name@, content_view(file_data), kind_view(kind)),
{
    if has_apk_suffix(file_name) {
        return "application/vnd.android.package-archive".to_owned();
    }
    match file_data {
        Some(data) => {
            if looks_like_apk(data) {
                return "application/vnd.android.package-archive".to_owned();
            }
            match kind {
                Some(k) => k.mime,
                None => "application/octet-stream".to_owned(),
            }
        },
        None => "application/octet-stream".to_owned(),
    }
}

/// Picks the MIME type for an outgoing file from its name and, where the
/// content is at hand, from its leading bytes: the Android package test
/// first, then the signature classifier.
pub fn get_mime_type_for_file(file_name: &str, file_data: Option<&[u8]>) -> (mime: String)
    ensures
        mime@ == mime_for(
            file_name@,
            content_view(file_data),
            classified_content(content_view(file_data)),
        ),
{
    let kind = match file_data {
        Some(data) => classify(data),
        None => None,
    };
    mime_type_for(file_name, file_data, kind)
}

/// What a byte-signature classifier reports of a payload.
#[derive(Debug, PartialEq, Eq)]
pub struct FileKind {
    pub mime: String,
    pub extension: String,
}

/// A file kind as a pair of texts: MIME type, then extension.
pub struct FileKindView {
    pub mime: Seq<char>,
    pub extension: Seq<char>,
}

impl View for FileKind {
    type V = FileKindView;

    open spec fn view(&self) -> FileKindView {
        FileKindView { mime: self.mime@, extension: self.extension@ }
    }
}

/// The view of an optional file kind.
pub open spec fn kind_view(kind: Option<FileKind>) -> Option<FileKindView> {
    match kind {
        Some(k) => Some(k@),
        None => None,
    }
}

/// The MIME type and extension that the signature table of the `infer` crate
/// assigns to the bytes, if any of its matchers accepts them.
pub uninterp spec fn signature_kind(bytes: Seq<u8>) -> Option<(Seq<char>, Seq<char>)>;

/// The signature verdict as a file kind view.
pub open spec fn classified(bytes: Seq<u8>) -> Option<FileKindView> {
    match signature_kind(bytes) {
        Some((mime, extension)) => Some(FileKindView { mime, extension }),
        None => None,
    }
}

/// Runs `infer::get` on the bytes.  Trusted: the result is whatever the
/// crate's fixed matcher table yields for these bytes, so equal bytes always
/// give the same answer; nothing is claimed about which answer that is.
#[verifier::external_body]
pub(crate) fn classify(bytes: &[u8]) -> (kind: Option<FileKind>)
    ensures
        match kind {
            Some(k) => signature_kind(bytes@) == Some((k.mime@, k.extension@)),
            None => signature_kind(bytes@) is None,
        },
{
    infer::get(bytes).map(
        |t| FileKind { mime: t.mime_type().to_string(), extension: t.extension().to_string() },
    )
}

/// The generic, category-based name given to a payload of a known kind.
pub open spec fn generic_name(kind: FileKindView) -> Seq<char> {
    if starts_with(kind.mime, "image/"@) {
        "image."@ + kind.extension
    } else if starts_with(kind.mime, "video/"@) {
        "video."@ + kind.extension
    } else if starts_with(kind.mime, "audio/"@) {
        "audio."@ + kind.extension
    } else if kind.mime == "application/pdf"@ {
        "document."@ + kind.extension
    } else if kind.mime == apk_mime() {
        "app.apk"@
    } else if kind.mime == zip_mime() {
        "archive."@ + kind.extension
    } else {
        "file."@ + kind.extension
    }
}

/// Builds the generic name for a payload of the given kind.
pub fn name_for_kind(kind: &FileKind) -> (name: String)
    ensures
        name@ == generic_name(kind@),
{
    let mime = kind.mime.as_str();
    let ext = kind.extension.as_str();
    if has_prefix(mime, "image/") {
        "image.".to_owned().concat(ext)
    } else if has_prefix(mime, "video/") {
        "video.".to_owned().concat(ext)
    } else if has_prefix(mime, "audio/") {
        "audio.".to_owned().concat(ext)
    } else if same_text(mime, "application/pdf") {
        "document.".to_owned().concat(ext)
    } else if same_text(mime, "application/vnd.android.package-archive") {
        "app.apk".to_owned()
    } else if same_text(mime, "application/zip") {
        "archive.".to_owned().concat(ext)
    } else {
        "file.".to_owned().concat(ext)
    }
}

/// Names that carry no information of their own: identifiers handed out by
/// a document provider, without any extension.
pub open spec fn is_placeholder_name(name: Seq<char>) -> bool {
    (starts_with(name, "msf_"@) || starts_with(name, "document_"@)) && !has_char(name, '.')
}

/// The name under which a payload is sent: a placeholder name gets `.apk`
/// appended for an Android package and gives way to the generic name of the
/// classified kind otherwise; every other name is kept.
pub open spec fn outgoing_name(
    name: Seq<char>,
    data: Seq<u8>,
    kind: Option<FileKindView>,
) -> Seq<char> {
    if !is_placeholder_name(name) {
        name
    } else if is_apk_content(data) {
        name + ".apk"@
    } else {
        match kind {
            Some(k) => generic_name(k),
            None => name,
        }
    }
}

/// Chooses the outgoing name given the classifier's verdict on `data`.
pub fn outgoing_name_for(file_name: String, data: &[u8], kind: Option<FileKind>) -> (name: String)
    ensures
        name@ == outgoing_name(file_name@, data@, kind_view(kind)),
{
    let placeholder = (has_prefix(file_name.as_str(), "msf_") || has_prefix(
        file_name.as_str(),
        "document_",
    )) && !contains_char(file_name.as_str(), '.');
    if !placeholder {
        return file_name;
    }
    if looks_like_apk(data) {
        return file_name.concat(".apk");
    }
    match kind {
        Some(k) => name_for_kind(&k),
        None => file_name,
    }
}

/// Chooses the name under which `data` is sent, classifying the content
/// where the given name is a placeholder.
pub fn choose_outgoing_name(file_name: String, data: &[u8]) -> (name: String)
    ensures
        name@ == outgoing_name(file_name@, data@, classified(data@)),
{
    let kind = classify(data);
    outgoing_name_for(file_name, data, kind)
}

/// Whether a single file name has an extension: a dot that is not its first
/// character, in a name other than `..`.
pub open spec fn has_extension(name: Seq<char>) -> bool {
    name != ".."@ && exists|i: int| 0 < i < name.len() && name[i] == '.'
}

/// Tests whether a file name has an extension.
pub fn name_has_extension(name: &str) -> (b: bool)
    ensures
        b == has_extension(name@),
{
    if same_text(name, "..") {
        return false;
    }
    let n = name.unicode_len();
    let mut i: usize = 1;
    while i < n
        invariant
            1 <= i,
            n == name@.len(),
            name@ != ".."@,
            forall|j: int| 0 < j < i && j < n ==> name@[j] != '.',
        decreases n - i,
    {
        if name.get_char(i) == '.' {
            return true;
        }
        i += 1;
    }
    false
}

/// The name under which a received payload is stored, decided on its first
/// chunk.  A name with an extension is kept.  Otherwise an Android package
/// gets `.apk`, a payload of a classified kind gets that kind's extension,
/// and a plain ZIP archive keeps its bare name, since a ZIP signature alone
/// does not settle what the archive is.
pub open spec fn stored_name(
    name: Seq<char>,
    chunk: Seq<u8>,
    kind: Option<FileKindView>,
) -> Seq<char> {
    if has_extension(name) {
        name
    } else if is_apk_content(chunk) {
        name + ".apk"@
    } else {
        match kind {
            Some(k) => if k.mime == zip_mime() {
                name
            } else {
                name + "."@ + k.extension
            },
            None => name,
        }
    }
}

/// Decides the stored name given the classifier's verdict on the chunk.
pub fn stored_name_for(name: String, chunk: &[u8], kind: Option<FileKind>) -> (out: String)
    ensures
        out@ == stored_name(name@, chunk@, kind_view(kind)),
{
    if name_has_extension(name.as_str()) {
        return name;
    }
    if looks_like_apk(chunk) {
        return name.concat(".apk");
    }
    match kind {
        Some(k) => {
            if same_text(k.mime.as_str(), "application/zip") {
                name
            } else {
                name.concat(".").concat(k.extension.as_str())
            }
        },
        None => name,
    }
}

/// Decides the stored name of a received payload from its first chunk.
pub fn choose_stored_name(name: String, chunk: &[u8]) -> (out: String)
    ensures
        out@ == stored_name(name@, chunk@, classified(chunk@)),
{
    let kind = classify(chunk);
    stored_name_for(name, chunk, kind)
}

/// The MIME type under which a received file is handed to a media store:
/// the Android package type where the name or the content says so, also
/// for a classified ZIP archive that names the manifest; else the type of
/// the classified kind, if any.
pub open spec fn storage_mime(
    name: Seq<char>,
    data: Seq<u8>,
    kind: Option<FileKindView>,
) -> Option<Seq<char>> {
    if names_apk(name) || is_apk_content(data) {
        Some(apk_mime())
    } else {
        match kind {
            Some(k) => if k.mime == zip_mime() && contains_bytes(
                sniff_prefix(data),
                manifest_marker(),
            ) {
                Some(apk_mime())
            } else {
                Some(k.mime)
            },
            None => None,
        }
    }
}

/// The view of an optional text.
pub open spec fn mime_view(mime: Option<String>) -> Option<Seq<char>> {
    match mime {
        Some(m) => Some(m@),
        None => None,
    }
}

/// Picks the storage MIME type given the classifier's verdict on the data.
pub fn storage_mime_for(name: &str, data: &[u8], kind: Option<FileKind>) -> (mime: Option<String>)
    ensures
        mime_view(mime) == storage_mime(name@, data@, kind_view(kind)),
{
    if has_apk_suffix(name) || looks_like_apk(data) {
        return Some("application/vnd.android.package-archive".to_owned());
    }
    match kind {
        Some(k) => {
            if same_text(k.mime.as_str(), "application/zip") && has_manifest_marker(data) {
                Some("application/vnd.android.package-archive".to_owned())
            } else {
                Some(k.mime)
            }
        },
        None => None,
    }
}

/// Picks the MIME type under which a received file is stored.
pub fn choose_storage_mime(name: &str, data: &[u8]) -> (mime: Option<String>)
    ensures
        mime_view(mime) == storage_mime(name@, data@, classified(data@)),
{
    let kind = classify(data);
    storage_mime_for(name, data, kind)
}

/// Content that opens with the ZIP signature and names the Android manifest
/// within the sniffing window is tagged as an Android package whatever the
/// classifier reports.  A placeholder name is sent, and a name without
/// extension is stored, with `.apk` appended.
pub proof fn apk_content_is_recognised(
    name: Seq<char>,
    data: Seq<u8>,
    kind: Option<FileKindView>,
    at: int,
)
    requires
        data.len() >= 4,
        data.subrange(0, 4) == zip_signature(),
        0 <= at,
        at + manifest_marker().len() <= data.len(),
        at + manifest_marker().len() <= SNIFF_WINDOW,
        data.subrange(at, at + manifest_marker().len()) == manifest_marker(),
    ensures
        is_apk_content(data),
        mime_for(name, Some(data), kind) == apk_mime(),
        is_placeholder_name(name) ==> outgoing_name(name, data, kind) == name + ".apk"@,
        !has_extension(name) ==> stored_name(name, data, kind) == name + ".apk"@,
        ends_with(stored_name(name, data, kind), ".apk"@) || has_extension(name),
        ends_with(outgoing_name(name, data, kind), ".apk"@) || !is_placeholder_name(name),
{
    let window = sniff_prefix(data);
    let m = manifest_marker().len() as int;
    assert(window.subrange(at, at + m) =~= data.subrange(at, at + m));
    assert(occurs_at(window, manifest_marker(), at));
    let with_apk = name + ".apk"@;
    reveal_strlit(".apk");
    assert(with_apk.subrange(with_apk.len() - 4, with_apk.len() as int) =~= ".apk"@);
}

/// Content that opens with the ZIP signature but does not name the manifest
/// within the window is no Android package; where the classifier reports a
/// plain ZIP archive, a name without extension is stored as it is, and the
/// payload is tagged as a ZIP archive unless its name ends in `.apk`.
pub proof fn plain_zip_keeps_bare_name(name: Seq<char>, data: Seq<u8>, extension: Seq<char>)
    requires
        !contains_bytes(sniff_prefix(data), manifest_marker()),
        !has_extension(name),
    ensures
        !is_apk_content(data),
        stored_name(name, data, Some(FileKindView { mime: zip_mime(), extension })) == name,
        !names_apk(name) ==> mime_for(
            name,
            Some(data),
            Some(FileKindView { mime: zip_mime(), extension }),
        ) == zip_mime(),
{
}

} // verus!
