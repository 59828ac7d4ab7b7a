//! The capture decision: whether what the pasteboard holds becomes a new
//! history item, and what that item holds.
use crate::classify::{create_text_preview, text_preview};
use crate::clipboard::{
    content_from_reading, image_marker, raw_content_of, type_tag_of, ClipboardMonitor,
    PasteContent, PasteContentView,
};
use crate::hashing::{compute_hash, content_hash};
use crate::stamp::{is_uuid_v4_text, rfc3339_at, new_item_id, now_rfc3339, utc_rfc3339_text, uuid_v4_shape};
use crate::text::{
    chars_of, contains, contains_chars, eq_ignore_ascii_case, eq_ignore_ascii_case_chars, join,
    join_strings, lowercase_of, to_lowercase,
};
use vstd::prelude::*;

verus! {

/// The user settings that the clipboard logic reads.
pub struct Settings {
    pub hotkey: String,
    pub history_limit: u32,
    pub sticky_mode: bool,
    pub ignore_transient: bool,
    pub ignore_autogenerated: bool,
    pub ignore_concealed: bool,
    pub excluded_apps: Vec<String>,
    pub excluded_types: Vec<String>,
}

/// Which of the privacy marker types the pasteboard carries (transient,
/// auto-generated, concealed).
pub struct PasteboardMarkers {
    pub transient: bool,
    pub autogenerated: bool,
    pub concealed: bool,
}

/// Everything a capture looks at: whether the native pasteboard rules
/// apply, the settings (if loaded), the marker types present, the content
/// read, and the bundle identifier of the frontmost application (if known).
pub struct CaptureInput {
    pub on_macos: bool,
    pub settings: Option<Settings>,
    pub markers: PasteboardMarkers,
    pub content: Option<PasteContent>,
    pub frontmost_app: Option<String>,
}

/// Why a capture stores nothing.
#[derive(Debug, Clone, Copy, PartialEq, Eq, Structural)]
pub enum SkipReason {
    /// The pasteboard carries a marker type that the settings ignore.
    Marker,
    /// The pasteboard holds nothing readable.
    NoContent,
    /// The content's raw text is empty.
    Empty,
    /// The content's hash is the one last captured or written.
    Duplicate,
    /// This application itself is frontmost.
    OwnAppFrontmost,
    /// The frontmost application is excluded in the settings.
    ExcludedApp,
    /// The content's type is excluded in the settings.
    ExcludedType,
}

/// What a capture that stores something will store. For an image, the
/// bytes to save and the hash they are saved under.
pub struct CapturePlan {
    pub content_type: String,
    pub content: String,
    pub preview: String,
    pub hash: String,
    pub image: Option<(String, Vec<u8>)>,
    pub history_limit: u32,
}

/// The outcome of a capture.
pub enum CaptureDecision {
    Skip(SkipReason),
    Store(CapturePlan),
}

/// The mathematical value of a `CaptureDecision`.
pub enum CaptureOutcome {
    Skip(SkipReason),
    Store {
        content_type: Seq<char>,
        content: Seq<char>,
        preview: Seq<char>,
        hash: Seq<char>,
        image: Option<(Seq<char>, Seq<u8>)>,
        history_limit: u32,
    },
}

impl View for CaptureDecision {
    type V = CaptureOutcome;

    open spec fn view(&self) -> CaptureOutcome {
        match self {
            CaptureDecision::Skip(r) => CaptureOutcome::Skip(*r),
            CaptureDecision::Store(p) => CaptureOutcome::Store {
                content_type: p.content_type@,
                content: p.content@,
                preview: p.preview@,
                hash: p.hash@,
                image: match &p.image {
                    Some((h, d)) => Some((h@, d@)),
                    None => None,
                },
                history_limit: p.history_limit,
            },
        }
    }
}

/// A stored clipboard history item.
#[derive(Debug, Clone)]
pub struct ClipboardItem {
    pub id: String,
    pub content_type: String,
    pub content: String,
    pub preview: String,
    pub hash: String,
    pub created_at: String,
}

/// The bundle identifier of this application.
pub open spec fn own_bundle_id() -> Seq<char> {
    "com.yeet.app"@
}

/// The history length used when no settings are loaded.
pub open spec fn default_history_limit() -> u32 {
    100
}

/// The view of an optional content.
pub open spec fn content_view(c: Option<PasteContent>) -> Option<PasteContentView> {
    match c {
        Some(c) => Some(c@),
        None => None,
    }
}

/// The pasteboard carries a marker type that the settings ask to ignore
/// (only checked on the native pasteboard, and only with settings loaded).
pub open spec fn marker_skip(input: CaptureInput) -> bool {
    input.on_macos && match input.settings {
        Some(s) => (s.ignore_transient && input.markers.transient) || (s.ignore_autogenerated
            && input.markers.autogenerated) || (s.ignore_concealed && input.markers.concealed),
        None => false,
    }
}

/// Some non-empty entry of `apps` occurs, ignoring case, in `frontmost`.
pub open spec fn app_excluded(apps: Seq<Seq<char>>, frontmost: Seq<char>) -> bool {
    exists|i: int|
        0 <= i < apps.len() && apps[i].len() > 0 && contains(
            lowercase_of(frontmost),
            lowercase_of(#[trigger] apps[i]),
        )
}

/// Why the frontmost application stops a capture, if it does.
pub open spec fn frontmost_skip(input: CaptureInput) -> Option<SkipReason> {
    match input.frontmost_app {
        None => None,
        Some(f) => if input.on_macos && eq_ignore_ascii_case(f@, own_bundle_id()) {
            Some(SkipReason::OwnAppFrontmost)
        } else if input.settings is Some && app_excluded(
            input.settings->Some_0.excluded_apps.deep_view(),
            f@,
        ) {
            Some(SkipReason::ExcludedApp)
        } else {
            None
        },
    }
}

/// The preview stored for a content: the image's file name (or "[image]"),
/// the text preview of text and URLs, the file paths one per line.
pub open spec fn preview_of(c: PasteContentView) -> Seq<char> {
    match c {
        PasteContentView::Image { source_name, .. } => match source_name {
            Some(n) => n,
            None => "[image]"@,
        },
        PasteContentView::Text(t) => text_preview(t),
        PasteContentView::Url(u) => text_preview(u),
        PasteContentView::Files(paths) => join(paths, "\n"@),
    }
}

/// The image to save for a content, if it is one: its hash and bytes.
pub open spec fn image_of(c: PasteContentView) -> Option<(Seq<char>, Seq<u8>)> {
    match c {
        PasteContentView::Image { hash, data, .. } => Some((hash, data)),
        _ => None,
    }
}

/// The outcome of a capture, given the last remembered hash. The checks
/// come in this order: marker types, content present, raw text non-empty,
/// not a duplicate of the last hash, frontmost application, content type.
pub open spec fn capture_outcome(last: Option<Seq<char>>, input: CaptureInput) -> CaptureOutcome {
    if marker_skip(input) {
        CaptureOutcome::Skip(SkipReason::Marker)
    } else {
        match content_view(input.content) {
            None => CaptureOutcome::Skip(SkipReason::NoContent),
            Some(c) => {
                let raw = raw_content_of(c);
                let tag = type_tag_of(c);
                if raw.len() == 0 {
                    CaptureOutcome::Skip(SkipReason::Empty)
                } else if last == Some(content_hash(raw)) {
                    CaptureOutcome::Skip(SkipReason::Duplicate)
                } else if frontmost_skip(input) is Some {
                    CaptureOutcome::Skip(frontmost_skip(input)->Some_0)
                } else if input.settings is Some && input.settings->Some_0.excluded_types.deep_view().contains(tag) {
                    CaptureOutcome::Skip(SkipReason::ExcludedType)
                } else {
                    CaptureOutcome::Store {
                        content_type: tag,
                        content: raw,
                        preview: preview_of(c),
                        hash: content_hash(raw),
                        image: image_of(c),
                        history_limit: match input.settings {
                            Some(s) => s.history_limit,
                            None => default_history_limit(),
                        },
                    }
                }
            },
        }
    }
}

/// Whether the settings ask to skip this capture for a marker type.
fn marker_skip_exec(input: &CaptureInput) -> (r: bool)
    ensures
        r == marker_skip(*input),
{
    if !input.on_macos {
        return false;
    }
    match &input.settings {
        Some(s) => (s.ignore_transient && input.markers.transient) || (s.ignore_autogenerated
            && input.markers.autogenerated) || (s.ignore_concealed && input.markers.concealed),
        None => false,
    }
}

/// Whether some non-empty entry of `apps` occurs, ignoring case, in the
/// frontmost application's identifier.
pub fn app_is_excluded(apps: &Vec<String>, frontmost: &str) -> (r: bool)
    ensures
        r == app_excluded(apps.deep_view(), frontmost@),
{
    let ghost views = apps.deep_view();
    let front = chars_of(to_lowercase(frontmost).as_str());
    let mut i: usize = 0;
    while i < apps.len()
        invariant
            i <= apps.len(),
            views == apps.deep_view(),
            front@ == lowercase_of(frontmost@),
            forall|j: int|
                0 <= j < i ==> !(views[j].len() > 0 && contains(
                    lowercase_of(frontmost@),
                    lowercase_of(#[trigger] views[j]),
                )),
        decreases apps.len() - i,
    {
        assert(views[i as int] == apps@[i as int]@);
        if !apps[i].as_str().is_empty() {
            let entry = chars_of(to_lowercase(apps[i].as_str()).as_str());
            if contains_chars(&front, &entry) {
                return true;
            }
        }
        i = i + 1;
    }
    false
}

/// Whether `tag` is one of `types`.
pub fn type_is_excluded(types: &Vec<String>, tag: &String) -> (r: bool)
    ensures
        r == types.deep_view().contains(tag@),
{
    let ghost views = types.deep_view();
    let mut i: usize = 0;
    while i < types.len()
        invariant
            i <= types.len(),
            views == types.deep_view(),
            forall|j: int| 0 <= j < i ==> views[j] != tag@,
        decreases types.len() - i,
    {
        assert(views[i as int] == types@[i as int]@);
        if types[i] == *tag {
            assert(views[i as int] == tag@);
            return true;
        }
        i = i + 1;
    }
    false
}

/// The preview stored for a content.
fn preview_for(c: &PasteContent) -> (r: String)
    ensures
        r@ == preview_of(c@),
{
    match c {
        PasteContent::Image { source_name, .. } => match source_name {
            Some(n) => n.clone(),
            None => String::from_str("[image]"),
        },
        PasteContent::Text(t) => create_text_preview(t.as_str()),
        PasteContent::Url(u) => create_text_preview(u.as_str()),
        PasteContent::Files(paths) => join_strings(paths, "\n"),
    }
}

/// Decides what a capture does: read the pasteboard (already done by the
/// caller), dedupe by content hash, gate on markers, frontmost application
/// and type, and plan the new item.
pub fn decide_capture(monitor: &ClipboardMonitor, input: CaptureInput) -> (r: CaptureDecision)
    ensures
        r@ == capture_outcome(monitor@, input),
{
    if marker_skip_exec(&input) {
        return CaptureDecision::Skip(SkipReason::Marker);
    }
    let ghost orig = input;
    let CaptureInput { on_macos, settings, markers, content, frontmost_app } = input;
    let content = match content {
        None => {
            return CaptureDecision::Skip(SkipReason::NoContent);
        },
        Some(c) => c,
    };
    let raw = content.raw_content();
    if raw.as_str().is_empty() {
        return CaptureDecision::Skip(SkipReason::Empty);
    }
    let hash = compute_hash(raw.as_str());
    if monitor.is_last_hash(&hash) {
        return CaptureDecision::Skip(SkipReason::Duplicate);
    }
    let content_type = String::from_str(content.type_tag());
    if let Some(front) = &frontmost_app {
        if on_macos && eq_ignore_ascii_case_chars(&chars_of(front.as_str()), &chars_of("com.yeet.app")) {
            return CaptureDecision::Skip(SkipReason::OwnAppFrontmost);
        }
        if let Some(s) = &settings {
            if app_is_excluded(&s.excluded_apps, front.as_str()) {
                return CaptureDecision::Skip(SkipReason::ExcludedApp);
            }
        }
    }
    assert(frontmost_skip(orig) is None);
    if let Some(s) = &settings {
        if type_is_excluded(&s.excluded_types, &content_type) {
            return CaptureDecision::Skip(SkipReason::ExcludedType);
        }
    }
    let preview = preview_for(&content);
    let history_limit = match &settings {
        Some(s) => s.history_limit,
        None => 100,
    };
    let image = match content {
        PasteContent::Image { hash: img_hash, data, .. } => Some((img_hash, data)),
        _ => None,
    };
    CaptureDecision::Store(
        CapturePlan { content_type, content: raw, preview, hash, image, history_limit },
    )
}

/// The item a storing capture records, with its identifier and creation
/// time. For an image, `saved_path` is where its bytes were saved (`None`
/// when saving failed): it becomes the content, and the image marker stays
/// the content otherwise.
pub fn finish_capture(
    plan: CapturePlan,
    saved_path: Option<String>,
    id: String,
    created_at: String,
) -> (r: ClipboardItem)
    ensures
        r.id == id,
        r.created_at == created_at,
        r.content_type@ == plan.content_type@,
        r.preview@ == plan.preview@,
        r.hash@ == plan.hash@,
        r.content@ == (match (plan.image, saved_path) {
            (Some(_), Some(p)) => p@,
            _ => plan.content@,
        }),
{
    let CapturePlan { content_type, content, preview, hash, image, history_limit } = plan;
    let content = match (image, saved_path) {
        (Some(_), Some(p)) => p,
        _ => content,
    };
    ClipboardItem { id, content_type, content, preview, hash, created_at }
}

/// The message when no item identifier can be made.
pub open spec fn no_id_message() -> Seq<char> {
    "could not read random bytes for an item id"@
}

/// The message when the clock cannot date an item.
pub open spec fn no_time_message() -> Seq<char> {
    "system clock is before 1970 or out of range"@
}

/// The item a storing capture records, with a fresh identifier (a random
/// version-4 UUID) and the current time. Fails, with the message saying
/// which, when no random bytes can be read or the clock cannot be read as
/// a date.
pub fn capture_item(plan: CapturePlan, saved_path: Option<String>) -> (r: Result<ClipboardItem, String>)
    ensures
        r matches Ok(item) ==> {
            &&& is_uuid_v4_text(item.id@)
            &&& uuid_v4_shape(item.id@)
            &&& utc_rfc3339_text(item.created_at@)
            &&& exists|secs: u64, nanos: u32|
                nanos < 1_000_000_000 && secs <= i64::MAX && rfc3339_at(secs as int, nanos as int)
                    == Some(item.created_at@)
            &&& item.content_type@ == plan.content_type@
            &&& item.preview@ == plan.preview@
            &&& item.hash@ == plan.hash@
            &&& item.content@ == (match (plan.image, saved_path) {
                (Some(_), Some(p)) => p@,
                _ => plan.content@,
            })
        },
        r matches Err(e) ==> e@ == no_id_message() || e@ == no_time_message(),
{
    let id = match new_item_id() {
        Some(id) => id,
        None => {
            return Err(String::from_str("could not read random bytes for an item id"));
        },
    };
    let created_at = match now_rfc3339() {
        Some(t) => t,
        None => {
            return Err(String::from_str("system clock is before 1970 or out of range"));
        },
    };
    Ok(finish_capture(plan, saved_path, id, created_at))
}

/// Capturing deduplicates: once a content has been stored and its hash
/// remembered, reading the same content again is a duplicate, whatever the
/// frontmost application and settings, unless a marker type stops the
/// capture first.
pub proof fn law_stored_content_is_deduplicated(
    last: Option<Seq<char>>,
    input: CaptureInput,
    again: CaptureInput,
)
    requires
        capture_outcome(last, input) is Store,
        content_view(again.content) == content_view(input.content),
        !marker_skip(again),
    ensures
        capture_outcome(Some(capture_outcome(last, input)->Store_hash), again) == CaptureOutcome::Skip(
            SkipReason::Duplicate,
        ),
{
}

/// Text that the app itself wrote to the clipboard (and remembered) is not
/// recorded again by the next capture of any content with that raw text.
pub proof fn law_own_text_write_is_not_recaptured(text: Seq<char>, input: CaptureInput)
    requires
        content_view(input.content) matches Some(c) && raw_content_of(c) == text,
        !marker_skip(input),
    ensures
        capture_outcome(Some(content_hash(text)), input) is Skip,
{
}

/// Image bytes that the app itself wrote to the clipboard (and remembered)
/// are not recorded again when the pasteboard is read back with that image.
pub proof fn law_own_image_write_is_not_recaptured(
    data: Seq<u8>,
    names: Seq<Option<Seq<char>>>,
    url: Option<Seq<char>>,
    plain_text: Option<Seq<char>>,
    legacy_text: Option<Seq<char>>,
    input: CaptureInput,
)
    requires
        content_view(input.content) == content_from_reading(
            Some(data),
            names,
            url,
            plain_text,
            legacy_text,
        ),
        !marker_skip(input),
    ensures
        capture_outcome(Some(content_hash(image_marker(crate::hashing::data_hash(data)))), input)
            == CaptureOutcome::Skip(SkipReason::Duplicate),
{
    reveal_strlit("[image:");
    let raw = image_marker(crate::hashing::data_hash(data));
    assert(raw.len() > 0);
}

/// A transient pasteboard (org.nspasteboard.TransientType) is not recorded
/// on the native pasteboard when the loaded settings ask to ignore it.
pub proof fn law_transient_marker_skips(last: Option<Seq<char>>, input: CaptureInput)
    requires
        input.on_macos,
        input.settings matches Some(s) && s.ignore_transient,
        input.markers.transient,
    ensures
        capture_outcome(last, input) == CaptureOutcome::Skip(SkipReason::Marker),
{
}

/// An auto-generated pasteboard (org.nspasteboard.AutoGeneratedType) is not
/// recorded on the native pasteboard when the loaded settings ask to ignore
/// it.
pub proof fn law_autogenerated_marker_skips(last: Option<Seq<char>>, input: CaptureInput)
    requires
        input.on_macos,
        input.settings matches Some(s) && s.ignore_autogenerated,
        input.markers.autogenerated,
    ensures
        capture_outcome(last, input) == CaptureOutcome::Skip(SkipReason::Marker),
{
}

/// A concealed pasteboard (org.nspasteboard.ConcealedType, such as a
/// password) is not recorded on the native pasteboard when the loaded
/// settings ask to ignore it.
pub proof fn law_concealed_marker_skips(last: Option<Seq<char>>, input: CaptureInput)
    requires
        input.on_macos,
        input.settings matches Some(s) && s.ignore_concealed,
        input.markers.concealed,
    ensures
        capture_outcome(last, input) == CaptureOutcome::Skip(SkipReason::Marker),
{
}

/// A marker type stops a capture only where it is both present and ignored
/// by the loaded settings on the native pasteboard: otherwise the outcome is
/// never a marker skip.
pub proof fn law_marker_skip_needs_an_ignored_marker(last: Option<Seq<char>>, input: CaptureInput)
    requires
        !input.on_macos || input.settings is None || ({
            let s = input.settings->Some_0;
            &&& !(s.ignore_transient && input.markers.transient)
            &&& !(s.ignore_autogenerated && input.markers.autogenerated)
            &&& !(s.ignore_concealed && input.markers.concealed)
        }),
    ensures
        capture_outcome(last, input) != CaptureOutcome::Skip(SkipReason::Marker),
{
}

} // verus!
