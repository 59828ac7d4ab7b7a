//! What the pasteboard holds, how it is turned into history text, and the
//! monitor that remembers the hash of the last captured content.
use crate::classify::{detect_text_type, text_type};
use crate::hashing::{compute_hash, content_hash, data_hash, image_data_hash};
use crate::text::{
    chars_of, ends_with, ends_with_chars, join, join_strings, starts_with, starts_with_chars,
    str_equals, string_from_chars, trim, trim_chars,
};
use base64::Engine;
use vstd::prelude::*;

verus! {

/// Pasteboard read result.
#[derive(Debug, Clone)]
pub enum PasteContent {
    Text(String),
    Url(String),
    Files(Vec<String>),
    Image { hash: String, data: Vec<u8>, source_name: Option<String> },
}

/// The mathematical value of a `PasteContent`.
pub enum PasteContentView {
    Text(Seq<char>),
    Url(Seq<char>),
    Files(Seq<Seq<char>>),
    Image { hash: Seq<char>, data: Seq<u8>, source_name: Option<Seq<char>> },
}

impl View for PasteContent {
    type V = PasteContentView;

    open spec fn view(&self) -> PasteContentView {
        match self {
            PasteContent::Text(s) => PasteContentView::Text(s@),
            PasteContent::Url(s) => PasteContentView::Url(s@),
            PasteContent::Files(paths) => PasteContentView::Files(paths.deep_view()),
            PasteContent::Image { hash, data, source_name } => PasteContentView::Image {
                hash: hash@,
                data: data@,
                source_name: source_name.deep_view(),
            },
        }
    }
}

/// The type tag stored with a content: the text type for plain text, and
/// "url", "file" or "image" for the other kinds.
pub open spec fn type_tag_of(c: PasteContentView) -> Seq<char> {
    match c {
        PasteContentView::Text(s) => text_type(s),
        PasteContentView::Url(_) => "url"@,
        PasteContentView::Files(_) => "file"@,
        PasteContentView::Image { .. } => "image"@,
    }
}

/// The text that stands for an image in the history: "[image:<hash>]".
pub open spec fn image_marker(hash: Seq<char>) -> Seq<char> {
    "[image:"@ + hash + "]"@
}

/// The raw text of a content, which is what gets hashed: the text itself,
/// the file paths one per line, or the image marker.
pub open spec fn raw_content_of(c: PasteContentView) -> Seq<char> {
    match c {
        PasteContentView::Text(s) => s,
        PasteContentView::Url(s) => s,
        PasteContentView::Files(paths) => join(paths, "\n"@),
        PasteContentView::Image { hash, .. } => image_marker(hash),
    }
}

impl PasteContent {
    /// The type tag of this content.
    pub fn type_tag(&self) -> (r: &'static str)
        ensures
            r@ == type_tag_of(self@),
    {
        match self {
            PasteContent::Text(s) => detect_text_type(s.as_str()),
            PasteContent::Url(_) => "url",
            PasteContent::Files(_) => "file",
            PasteContent::Image { .. } => "image",
        }
    }

    /// The raw text of this content.
    pub fn raw_content(&self) -> (r: String)
        ensures
            r@ == raw_content_of(self@),
    {
        match self {
            PasteContent::Text(s) => s.clone(),
            PasteContent::Url(s) => s.clone(),
            PasteContent::Files(paths) => join_strings(paths, "\n"),
            PasteContent::Image { hash, .. } => image_marker_string(hash.as_str()),
        }
    }
}

/// The image marker for `hash`.
pub fn image_marker_string(hash: &str) -> (r: String)
    ensures
        r@ == image_marker(hash@),
{
    let mut s = String::new();
    s.append("[image:");
    s.append(hash);
    s.append("]");
    s
}

/// Cached state of the last seen clipboard so the poll loop can dedup.
pub struct ClipboardMonitor {
    last_hash: Option<String>,
}

impl View for ClipboardMonitor {
    type V = Option<Seq<char>>;

    /// The hash of the last content captured or written, if any.
    closed spec fn view(&self) -> Option<Seq<char>> {
        self.last_hash.deep_view()
    }
}

impl ClipboardMonitor {
    /// A monitor that has seen nothing yet.
    pub fn new() -> (r: Self)
        ensures
            r@ == None::<Seq<char>>,
    {
        ClipboardMonitor { last_hash: None }
    }

    /// Seeds the monitor from what the history holds: the hash of its newest
    /// item (`Ok(None)` when it is empty). A failed lookup leaves it as it
    /// was.
    pub fn init_last_hash(&mut self, stored: Result<Option<String>, String>)
        ensures
            stored matches Ok(h) ==> final(self)@ == h.deep_view(),
            stored is Err ==> final(self)@ == old(self)@,
    {
        if let Ok(hash) = stored {
            self.last_hash = hash;
        }
    }

    /// Replaces the remembered hash.
    pub fn set_last_hash(&mut self, hash: Option<String>)
        ensures
            final(self)@ == hash.deep_view(),
    {
        self.last_hash = hash;
    }

    /// Whether `hash` is the remembered hash.
    pub fn is_last_hash(&self, hash: &String) -> (r: bool)
        ensures
            r == (self@ == Some(hash@)),
    {
        match &self.last_hash {
            Some(h) => *h == *hash,
            None => false,
        }
    }

    /// Remembers text that the app itself put on the clipboard, so that the
    /// next capture does not record it again.
    pub fn remember_text_write(&mut self, text: &str)
        ensures
            final(self)@ == Some(content_hash(text@)),
    {
        let hash = compute_hash(text);
        self.last_hash = Some(hash);
    }

    /// Remembers image bytes that the app itself put on the clipboard: the
    /// hash of the marker that a capture of those bytes would produce.
    pub fn remember_image_write(&mut self, data: &[u8])
        ensures
            final(self)@ == Some(content_hash(image_marker(data_hash(data@)))),
    {
        let img_hash = image_data_hash(data);
        let raw = image_marker_string(img_hash.as_str());
        let hash = compute_hash(raw.as_str());
        self.last_hash = Some(hash);
    }
}

/// What the pasteboard offered when it was read: the bytes of its first
/// image (PNG, then TIFF, then JPEG), the entries of its file-name list (an
/// entry is `None` where it could not be read as UTF-8), its URL string and
/// its two plain-text strings (modern type first, then legacy type).
pub struct PasteboardReading {
    pub image: Option<Vec<u8>>,
    pub file_names: Vec<Option<String>>,
    pub url: Option<String>,
    pub plain_text: Option<String>,
    pub legacy_text: Option<String>,
}

/// The part of a path after its last '/' (all of it when it has none).
pub open spec fn after_last_slash(p: Seq<char>) -> Seq<char>
    decreases p.len(),
{
    if p.len() == 0 {
        p
    } else if p.last() == '/' {
        Seq::empty()
    } else {
        after_last_slash(p.drop_last()).push(p.last())
    }
}

/// The file paths that could be read, in order.
pub open spec fn readable_names(names: Seq<Option<Seq<char>>>) -> Seq<Seq<char>>
    decreases names.len(),
{
    if names.len() == 0 {
        Seq::empty()
    } else {
        readable_names(names.drop_last()) + match names.last() {
            Some(n) => seq![n],
            None => Seq::empty(),
        }
    }
}

/// The content a pasteboard reading stands for. An image wins (its name is
/// the last segment of the first file path, if that one could be read), then
/// the readable file paths, then a URL that is not blank, then the first
/// non-empty plain text.
pub open spec fn content_from_reading(
    image: Option<Seq<u8>>,
    names: Seq<Option<Seq<char>>>,
    url: Option<Seq<char>>,
    plain_text: Option<Seq<char>>,
    legacy_text: Option<Seq<char>>,
) -> Option<PasteContentView> {
    if let Some(data) = image {
        Some(
            PasteContentView::Image {
                hash: data_hash(data),
                data: data,
                source_name: if names.len() > 0 && names[0] is Some {
                    Some(after_last_slash(names[0]->Some_0))
                } else {
                    None
                },
            },
        )
    } else if readable_names(names).len() > 0 {
        Some(PasteContentView::Files(readable_names(names)))
    } else if url is Some && trim(url->Some_0).len() > 0 {
        Some(PasteContentView::Url(url->Some_0))
    } else if plain_text is Some && plain_text->Some_0.len() > 0 {
        Some(PasteContentView::Text(plain_text->Some_0))
    } else if legacy_text is Some && legacy_text->Some_0.len() > 0 {
        Some(PasteContentView::Text(legacy_text->Some_0))
    } else {
        None
    }
}

proof fn lemma_after_last_slash(p: Seq<char>, j: int)
    requires
        0 <= j <= p.len(),
        j == 0 || p[j - 1] == '/',
        forall|k: int| j <= k < p.len() ==> p[k] != '/',
    ensures
        after_last_slash(p) == p.subrange(j, p.len() as int),
    decreases p.len(),
{
    if p.len() == 0 {
    } else if p.last() == '/' {
        assert(j == p.len());
    } else {
        if j == p.len() {
            assert(p[j - 1] == p.last());
        } else {
            lemma_after_last_slash(p.drop_last(), j);
            assert(p.subrange(j, p.len() as int) == p.drop_last().subrange(j, p.len() - 1).push(
                p.last(),
            ));
        }
    }
}

/// The last segment of a path.
pub fn file_name_of(path: &str) -> (r: String)
    ensures
        r@ == after_last_slash(path@),
{
    let p = chars_of(path);
    let mut j: usize = p.len();
    while j > 0 && p[j - 1] != '/'
        invariant
            j <= p.len(),
            forall|k: int| j <= k < p.len() ==> p@[k] != '/',
        decreases j,
    {
        j = j - 1;
    }
    proof {
        lemma_after_last_slash(p@, j as int);
    }
    let mut out: Vec<char> = Vec::new();
    let mut i: usize = j;
    while i < p.len()
        invariant
            j <= i <= p.len(),
            out@ == p@.subrange(j as int, i as int),
        decreases p.len() - i,
    {
        out.push(p[i]);
        assert(p@.subrange(j as int, i + 1) == p@.subrange(j as int, i as int).push(p@[i as int]));
        i = i + 1;
    }
    string_from_chars(&out)
}

impl PasteboardReading {
    /// The content this reading stands for, if any.
    pub fn into_content(self) -> (r: Option<PasteContent>)
        ensures
            r matches Some(c) ==> content_from_reading(
                self.image.deep_view(),
                self.file_names.deep_view(),
                self.url.deep_view(),
                self.plain_text.deep_view(),
                self.legacy_text.deep_view(),
            ) == Some(c@),
            r is None ==> content_from_reading(
                self.image.deep_view(),
                self.file_names.deep_view(),
                self.url.deep_view(),
                self.plain_text.deep_view(),
                self.legacy_text.deep_view(),
            ) is None,
    {
        let ghost names = self.file_names.deep_view();
        if let Some(data) = self.image {
            assert(data.deep_view() =~= data@);
            if self.file_names.len() > 0 {
                assert(names[0] == self.file_names@[0].deep_view());
            }
            let hash = image_data_hash(data.as_slice());
            let source_name = if self.file_names.len() > 0 {
                match &self.file_names[0] {
                    Some(p) => Some(file_name_of(p.as_str())),
                    None => None,
                }
            } else {
                None
            };
            return Some(PasteContent::Image { hash, data, source_name });
        }
        let mut paths: Vec<String> = Vec::new();
        let mut i: usize = 0;
        while i < self.file_names.len()
            invariant
                i <= self.file_names.len(),
                names == self.file_names.deep_view(),
                paths.deep_view() == readable_names(names.take(i as int)),
            decreases self.file_names.len() - i,
        {
            assert(names.take(i + 1).drop_last() == names.take(i as int));
            assert(names.take(i + 1).last() == names[i as int]);
            match &self.file_names[i] {
                Some(p) => {
                    paths.push(p.clone());
                },
                None => {},
            }
            assert(paths.deep_view() == readable_names(names.take(i + 1)));
            i = i + 1;
        }
        assert(names.take(self.file_names.len() as int) == names);
        if paths.len() > 0 {
            return Some(PasteContent::Files(paths));
        }
        if let Some(u) = self.url {
            let trimmed = trim_chars(&chars_of(u.as_str()));
            if trimmed.len() > 0 {
                return Some(PasteContent::Url(u));
            }
        }
        if let Some(t) = self.plain_text {
            if t.as_str().is_empty() == false {
                return Some(PasteContent::Text(t));
            }
        }
        if let Some(t) = self.legacy_text {
            if t.as_str().is_empty() == false {
                return Some(PasteContent::Text(t));
            }
        }
        None
    }
}

/// Reads the pasteboard where no native pasteboard is available: there is
/// nothing to read.
pub fn read_pasteboard() -> (r: Option<PasteContent>)
    ensures
        r is None,
{
    None
}

/// The image hash in a legacy image content "[image:<hash>]", if the content
/// has that shape.
pub open spec fn legacy_hash_of(content: Seq<char>) -> Option<Seq<char>> {
    if starts_with(content, "[image:"@) && ends_with(content, "]"@) {
        Some(content.subrange(7, content.len() - 1))
    } else {
        None
    }
}

/// The hash named by a legacy image content.
pub fn legacy_image_hash(content: &str) -> (r: Option<String>)
    ensures
        r.deep_view() == legacy_hash_of(content@),
{
    let c = chars_of(content);
    let prefix = chars_of("[image:");
    let suffix = chars_of("]");
    if starts_with_chars(&c, &prefix) && ends_with_chars(&c, &suffix) {
        proof {
            reveal_strlit("[image:");
            reveal_strlit("]");
            assert(prefix@.len() == 7 && prefix@[6] == ':');
            assert(suffix@.len() == 1 && suffix@[0] == ']');
            if c.len() == 7 {
                assert(c@.subrange(0, 7)[6] == prefix@[6]);
                assert(c@.subrange(6, 7)[0] == suffix@[0]);
                assert(false);
            }
        }
        let mut out: Vec<char> = Vec::new();
        let mut i: usize = 7;
        let end = c.len() - 1;
        while i < end
            invariant
                7 <= i <= end,
                end == c.len() - 1,
                out@ == c@.subrange(7, i as int),
            decreases end - i,
        {
            out.push(c[i]);
            assert(c@.subrange(7, i + 1) == c@.subrange(7, i as int).push(c@[i as int]));
            i = i + 1;
        }
        Some(string_from_chars(&out))
    } else {
        None
    }
}

/// Whether a stored item holds an image (its type tag is "image").
pub fn is_image_type(content_type: &str) -> (r: bool)
    ensures
        r == (content_type@ == "image"@),
{
    str_equals(content_type, "image")
}

/// The digit of the standard Base64 alphabet for a value below 64:
/// 'A'..'Z', 'a'..'z', '0'..'9', '+', '/'.
pub open spec fn base64_digit(n: int) -> char {
    if n < 26 {
        (65 + n) as char
    } else if n < 52 {
        (97 + n - 26) as char
    } else if n < 62 {
        (48 + n - 52) as char
    } else if n == 62 {
        '+'
    } else {
        '/'
    }
}

/// The standard Base64 encoding of `data` (RFC 4648, with '=' padding):
/// each group of three bytes becomes four digits of six bits each, high
/// bits first; a last group of one or two bytes is padded to four digits.
pub open spec fn base64_standard(data: Seq<u8>) -> Seq<char>
    decreases data.len(),
{
    if data.len() == 0 {
        Seq::empty()
    } else {
        let a = data[0] as int;
        let b = if data.len() > 1 {
            data[1] as int
        } else {
            0
        };
        let c = if data.len() > 2 {
            data[2] as int
        } else {
            0
        };
        if data.len() == 1 {
            seq![base64_digit(a / 4), base64_digit((a % 4) * 16), '=', '=']
        } else if data.len() == 2 {
            seq![base64_digit(a / 4), base64_digit((a % 4) * 16 + b / 16), base64_digit((b % 16) * 4), '=']
        } else {
            seq![
                base64_digit(a / 4),
                base64_digit((a % 4) * 16 + b / 16),
                base64_digit((b % 16) * 4 + c / 64),
                base64_digit(c % 64),
            ] + base64_standard(data.skip(3))
        }
    }
}

/// Calls `Engine::encode` of `base64::engine::general_purpose::STANDARD`,
/// the standard alphabet with padding. Claims that the result is the
/// standard Base64 encoding of the bytes, as RFC 4648 defines it.
#[verifier::external_body]
fn base64_encode(data: &[u8]) -> (r: String)
    ensures
        r@ == base64_standard(data@),
{
    base64::engine::general_purpose::STANDARD.encode(data)
}

/// The data URL under which a stored PNG image is handed to the interface.
pub fn image_data_url(data: &[u8]) -> (r: String)
    ensures
        r@ == "data:image/png;base64,"@ + base64_standard(data@),
{
    let mut s = String::new();
    s.append("data:image/png;base64,");
    let b64 = base64_encode(data);
    s.append(b64.as_str());
    s
}

/// Writes image bytes to the clipboard where no native pasteboard is
/// available: always the error below.
pub fn write_image_to_clipboard(data: &[u8]) -> (r: Result<(), String>)
    ensures
        r matches Err(e) && e@ == "Image clipboard write not supported on this platform"@,
{
    Err(String::from_str("Image clipboard write not supported on this platform"))
}


/// The file name under which an image's bytes are saved: "<hash>.png".
pub fn image_file_name(hash: &str) -> (r: String)
    ensures
        r@ == hash@ + ".png"@,
{
    let mut s = String::new();
    s.append(hash);
    s.append(".png");
    s
}

/// The pattern that a history search matches content and previews
/// against: the search text anywhere ("%<text>%"), or no filter when the
/// search is absent or empty.
pub fn search_pattern(search: Option<&str>) -> (r: Option<String>)
    ensures
        match search {
            Some(s) => if s@.len() > 0 {
                r.deep_view() == Some("%"@ + s@ + "%"@)
            } else {
                r is None
            },
            None => r is None,
        },
{
    match search {
        Some(s) => {
            if s.is_empty() {
                None
            } else {
                let mut p = String::from_str("%");
                p.append(s);
                p.append("%");
                Some(p)
            }
        },
        None => None,
    }
}


/// Reading the hash back out of an image marker gives the hash that was
/// put in: legacy image contents name their image file.
pub proof fn law_legacy_marker_round_trip(hash: Seq<char>)
    ensures
        legacy_hash_of(image_marker(hash)) == Some(hash),
{
    reveal_strlit("[image:");
    reveal_strlit("]");
    let m = image_marker(hash);
    assert(m.subrange(0, 7) == "[image:"@);
    assert(m.subrange(m.len() - 1, m.len() as int) == "]"@);
    assert(m.subrange(7, m.len() - 1) == hash);
}

proof fn lemma_no_readable_names(names: Seq<Option<Seq<char>>>)
    requires
        forall|i: int| 0 <= i < names.len() ==> #[trigger] names[i] is None,
    ensures
        readable_names(names).len() == 0,
    decreases names.len(),
{
    if names.len() > 0 {
        lemma_no_readable_names(names.drop_last());
    }
}

proof fn lemma_readable_name_kept(names: Seq<Option<Seq<char>>>, i: int)
    requires
        0 <= i < names.len(),
        names[i] is Some,
    ensures
        readable_names(names).contains(names[i]->Some_0),
    decreases names.len(),
{
    if i < names.len() - 1 {
        lemma_readable_name_kept(names.drop_last(), i);
        let r = readable_names(names.drop_last());
        let k = choose|k: int| 0 <= k < r.len() && r[k] == names[i]->Some_0;
        assert(readable_names(names)[k] == names[i]->Some_0);
    } else {
        let r = readable_names(names.drop_last());
        assert(readable_names(names)[r.len() as int] == names[i]->Some_0);
    }
}

/// An image on the pasteboard wins over everything else: the reading stands
/// for that image, with its bytes and their hash.
pub proof fn law_image_is_read_first(
    data: Seq<u8>,
    names: Seq<Option<Seq<char>>>,
    url: Option<Seq<char>>,
    plain_text: Option<Seq<char>>,
    legacy_text: Option<Seq<char>>,
)
    ensures
        content_from_reading(Some(data), names, url, plain_text, legacy_text) matches Some(
            PasteContentView::Image { hash, data: d, .. },
        ) && d == data && hash == data_hash(data),
{
}

/// Without an image, a readable file name makes the reading a list of
/// files holding that name.
pub proof fn law_files_are_read_before_urls_and_text(
    names: Seq<Option<Seq<char>>>,
    i: int,
    url: Option<Seq<char>>,
    plain_text: Option<Seq<char>>,
    legacy_text: Option<Seq<char>>,
)
    requires
        0 <= i < names.len(),
        names[i] is Some,
    ensures
        content_from_reading(None, names, url, plain_text, legacy_text) matches Some(
            PasteContentView::Files(paths),
        ) && paths.contains(names[i]->Some_0),
{
    lemma_readable_name_kept(names, i);
}

/// Without an image or a readable file name, a URL that is not blank is
/// the content.
pub proof fn law_url_is_read_before_text(
    names: Seq<Option<Seq<char>>>,
    url: Seq<char>,
    plain_text: Option<Seq<char>>,
    legacy_text: Option<Seq<char>>,
)
    requires
        forall|i: int| 0 <= i < names.len() ==> #[trigger] names[i] is None,
        trim(url).len() > 0,
    ensures
        content_from_reading(None, names, Some(url), plain_text, legacy_text) == Some(
            PasteContentView::Url(url),
        ),
{
    lemma_no_readable_names(names);
}

/// Without an image, a readable file name or a non-blank URL, non-empty
/// text of the modern plain-text type is the content, whatever the legacy
/// text type holds.
pub proof fn law_plain_text_is_read(
    names: Seq<Option<Seq<char>>>,
    url: Option<Seq<char>>,
    text: Seq<char>,
    legacy_text: Option<Seq<char>>,
)
    requires
        forall|i: int| 0 <= i < names.len() ==> #[trigger] names[i] is None,
        url matches Some(u) ==> trim(u).len() == 0,
        text.len() > 0,
    ensures
        content_from_reading(None, names, url, Some(text), legacy_text) == Some(
            PasteContentView::Text(text),
        ),
{
    lemma_no_readable_names(names);
}

/// When the modern plain-text type is absent or empty (and nothing before
/// it is there), non-empty text of the legacy plain-text type is the
/// content; when that is absent or empty too, the reading stands for
/// nothing.
pub proof fn law_legacy_text_is_read_last(
    names: Seq<Option<Seq<char>>>,
    url: Option<Seq<char>>,
    plain_text: Option<Seq<char>>,
    legacy_text: Option<Seq<char>>,
)
    requires
        forall|i: int| 0 <= i < names.len() ==> #[trigger] names[i] is None,
        url matches Some(u) ==> trim(u).len() == 0,
        plain_text matches Some(t) ==> t.len() == 0,
    ensures
        legacy_text is Some && legacy_text->Some_0.len() > 0 ==> content_from_reading(
            None,
            names,
            url,
            plain_text,
            legacy_text,
        ) == Some(PasteContentView::Text(legacy_text->Some_0)),
        !(legacy_text is Some && legacy_text->Some_0.len() > 0) ==> content_from_reading(
            None,
            names,
            url,
            plain_text,
            legacy_text,
        ) is None,
{
    lemma_no_readable_names(names);
}

} // verus!
