//! Generated images as attachments.

use base64::Engine;
use serde_json::Value;
use vstd::prelude::*;

use crate::json;
use crate::session::{RecordedCall, Turn};
use crate::submission;
use crate::text;

verus! {

/// The bytes that base64 in the standard alphabet with padding spells; `None` for a text
/// that is rejected.
pub uninterp spec fn base64_decoded(text: Seq<char>) -> Option<Seq<u8>>;

/// `base64::engine::general_purpose::STANDARD.decode`: the bytes that the text spells, and
/// `None` for a text that is rejected.
#[verifier::external_body]
fn decode_base64(text: &str) -> (r: Option<Vec<u8>>)
    ensures
        r is Some <==> base64_decoded(text@) is Some,
        r is Some ==> r->0@ == base64_decoded(text@)->0,
{
    base64::engine::general_purpose::STANDARD.decode(text).ok()
}

/// A file that goes out with a response.
pub struct OutgoingAttachment {
    pub filename: String,
    pub mime_type: String,
    pub data: Vec<u8>,
}

/// An attachment by its texts and bytes.
#[verifier::ext_equal]
pub struct AttachmentView {
    pub filename: Seq<char>,
    pub mime_type: Seq<char>,
    pub data: Seq<u8>,
}

impl View for OutgoingAttachment {
    type V = AttachmentView;

    open spec fn view(&self) -> AttachmentView {
        AttachmentView {
            filename: self.filename@,
            mime_type: self.mime_type@,
            data: self.data@,
        }
    }
}

/// The views of a list of attachments.
pub open spec fn attachment_views(list: Seq<OutgoingAttachment>) -> Seq<AttachmentView> {
    list.map_values(|a: OutgoingAttachment| a@)
}

/// The file extension for an image type.
pub open spec fn extension(media_type: Seq<char>) -> Seq<char> {
    if media_type == "image/jpeg"@ {
        "jpg"@
    } else if media_type == "image/png"@ {
        "png"@
    } else if media_type == "image/gif"@ {
        "gif"@
    } else if media_type == "image/webp"@ {
        "webp"@
    } else {
        "bin"@
    }
}

/// The file extension for an image type.
pub fn extension_for_image_media_type(media_type: &str) -> (r: &'static str)
    ensures
        r@ == extension(media_type@),
{
    if text::same(media_type, "image/jpeg") {
        "jpg"
    } else if text::same(media_type, "image/png") {
        "png"
    } else if text::same(media_type, "image/gif") {
        "gif"
    } else if text::same(media_type, "image/webp") {
        "webp"
    } else {
        "bin"
    }
}

/// The image type and the base64 text of a `data:` URL.
pub struct ImageSource {
    pub media_type: Seq<char>,
    pub encoded: Seq<char>,
}

/// What a `data:` URL says of an image: its type, which the fallback gives where the URL
/// names no image type, and its base64 text. `None` where the URL has no comma, does not
/// begin with `data:`, is not marked as base64, or stands for something other than an image.
pub open spec fn image_source(url: Seq<char>, fallback: Option<Seq<char>>) -> Option<ImageSource> {
    let metadata = text::head_until(url, ',');
    let header = metadata.skip(5);
    let named = text::head_until(header, ';');
    let media_type = if text::begins_with(named, "image/"@) {
        named
    } else {
        match fallback {
            Some(f) => f,
            None => "image/png"@,
        }
    };
    if metadata.len() == url.len() || !text::begins_with(metadata, "data:"@) {
        None
    } else if !text::has_segment(header, ';', "base64"@) || !text::begins_with(
        media_type,
        "image/"@,
    ) {
        None
    } else {
        Some(
            ImageSource {
                media_type,
                encoded: text::trimmed(url.skip(metadata.len() as int + 1)),
            },
        )
    }
}

/// The attachment for image bytes; none for no bytes.
pub open spec fn attachment(media_type: Seq<char>, data: Option<Seq<u8>>, index: nat) -> Option<
    AttachmentView,
> {
    match data {
        Some(bytes) => if bytes.len() == 0 {
            None
        } else {
            Some(
                AttachmentView {
                    filename: "generated-image-"@ + text::decimal(index + 1) + "."@ + extension(
                        media_type,
                    ),
                    mime_type: media_type,
                    data: bytes,
                },
            )
        },
        None => None,
    }
}

/// The attachment for a `data:` URL.
pub open spec fn url_attachment(
    url: Seq<char>,
    fallback: Option<Seq<char>>,
    index: nat,
) -> Option<AttachmentView> {
    match image_source(url, fallback) {
        Some(s) => attachment(s.media_type, base64_decoded(s.encoded), index),
        None => None,
    }
}

/// The view of an optional attachment.
pub open spec fn attachment_of(a: Option<OutgoingAttachment>) -> Option<AttachmentView> {
    match a {
        Some(a) => Some(a@),
        None => None,
    }
}

/// The bytes of an optional vector.
pub open spec fn bytes_of(data: Option<Vec<u8>>) -> Option<Seq<u8>> {
    match data {
        Some(d) => Some(d@),
        None => None,
    }
}

/// The attachment for image bytes that were decoded, numbered from one.
pub fn image_attachment(media_type: &str, data: Option<Vec<u8>>, index: usize) -> (r: Option<
    OutgoingAttachment,
>)
    requires
        index < usize::MAX,
    ensures
        attachment_of(r) == attachment(media_type@, bytes_of(data), index as nat),
{
    match data {
        Some(bytes) => {
            if bytes.len() == 0 {
                None
            } else {
                let number = text::number_text((index + 1) as u128);
                let stem = text::cat3("generated-image-", number.as_str(), ".");
                Some(
                    OutgoingAttachment {
                        filename: text::cat(
                            stem.as_str(),
                            extension_for_image_media_type(media_type),
                        ),
                        mime_type: media_type.to_owned(),
                        data: bytes,
                    },
                )
            }
        },
        None => None,
    }
}

/// Splits a `data:` URL of an image into its type and its base64 text.
pub fn split_image_url(url: &str, fallback: Option<&str>) -> (r: Option<(String, String)>)
    ensures
        r is Some <==> image_source(url@, json::text_of(fallback)) is Some,
        r matches Some(p) ==> p.0@ == image_source(url@, json::text_of(fallback))->0.media_type
            && p.1@ == image_source(url@, json::text_of(fallback))->0.encoded,
{
    let comma: usize = text::head_length(url, ',');
    if comma >= url.unicode_len() {
        return None;
    }
    let metadata = text::head(url, comma);
    if !text::starts_with(metadata, "data:") {
        return None;
    }
    proof {
        reveal_strlit("data:");
    }
    let header = text::tail(metadata, 5);
    if !text::any_segment_is(header, ';', "base64") {
        return None;
    }
    let named = text::head(header, text::head_length(header, ';'));
    let media_type: &str = if text::starts_with(named, "image/") {
        named
    } else {
        match fallback {
            Some(f) => f,
            None => "image/png",
        }
    };
    if !text::starts_with(media_type, "image/") {
        return None;
    }
    let encoded = text::trim(text::tail(url, comma + 1));
    Some((media_type.to_owned(), encoded.to_owned()))
}

/// The attachment for a `data:` URL of an image.
pub fn generated_image_attachment_from_data_url(
    data_url: &str,
    fallback_media_type: Option<&str>,
    index: usize,
) -> (r: Option<OutgoingAttachment>)
    requires
        index < usize::MAX,
    ensures
        attachment_of(r) == url_attachment(
            data_url@,
            json::text_of(fallback_media_type),
            index as nat,
        ),
{
    match split_image_url(data_url, fallback_media_type) {
        Some((media_type, encoded)) => image_attachment(
            media_type.as_str(),
            decode_base64(encoded.as_str()),
            index,
        ),
        None => None,
    }
}

/// The mark that a tool result carries when it holds a generated image.
pub struct GeneratedImageSentinel {
    pub data: Option<String>,
    pub media_type: Option<String>,
}

/// A tool result marks a generated image.
pub open spec fn marks_image(content: json::JsonContent) -> bool {
    content.text_at("type"@) == Some("image_generated"@)
}

impl GeneratedImageSentinel {
    /// Reads the mark off a tool result.
    pub fn from_value(value: &Value) -> (r: Option<GeneratedImageSentinel>)
        ensures
            r is Some <==> marks_image(json::json_content(*value)),
            r is Some ==> json::string_of(r->0.data) == json::json_content(*value).text_at(
                "data"@,
            ) && json::string_of(r->0.media_type) == json::json_content(*value).text_at(
                "media_type"@,
            ),
    {
        match json::text_member(value, "type") {
            Some(kind) => {
                if text::same(kind, "image_generated") {
                    Some(
                        GeneratedImageSentinel {
                            data: owned(json::text_member(value, "data")),
                            media_type: owned(json::text_member(value, "media_type")),
                        },
                    )
                } else {
                    None
                }
            },
            None => None,
        }
    }
}

fn owned(s: Option<&str>) -> (r: Option<String>)
    ensures
        json::string_of(r) == json::text_of(s),
{
    match s {
        Some(t) => Some(t.to_owned()),
        None => None,
    }
}

/// The URL of the image that a call generated.
pub open spec fn image_url(call: RecordedCall) -> Option<Seq<char>> {
    match call.result {
        Some(v) => match json::json_content(v).text_at("data"@) {
            Some(url) => if marks_image(json::json_content(v)) && text::trimmed(url).len() > 0 {
                Some(text::trimmed(url))
            } else {
                None
            },
            None => None,
        },
        None => None,
    }
}

/// The images that a list of calls generated, each URL once, numbered by the call.
pub open spec fn images(calls: Seq<RecordedCall>) -> Seq<AttachmentView>
    decreases calls.len(),
{
    if calls.len() == 0 {
        seq![]
    } else {
        let before = images(calls.drop_last());
        let last = calls.last();
        match image_url(last) {
            Some(url) => if url_seen(calls.drop_last(), url) {
                before
            } else {
                match url_attachment(
                    url,
                    json::json_content(last.result->0).text_at("media_type"@),
                    (calls.len() - 1) as nat,
                ) {
                    Some(a) => before.push(a),
                    None => before,
                }
            },
            None => before,
        }
    }
}

/// Some call of the list generated the image at this URL.
pub open spec fn url_seen(calls: Seq<RecordedCall>, url: Seq<char>) -> bool {
    exists|i: int| 0 <= i < calls.len() && image_url(#[trigger] calls[i]) == Some(url)
}

fn call_image(call: &RecordedCall) -> (r: Option<(String, Option<String>)>)
    ensures
        r is Some <==> image_url(*call) is Some,
        r matches Some(p) ==> p.0@ == image_url(*call)->0 && json::string_of(p.1)
            == json::json_content(call.result->0).text_at("media_type"@),
{
    let sentinel = match &call.result {
        Some(v) => GeneratedImageSentinel::from_value(v),
        None => None,
    };
    match sentinel {
        Some(s) => match s.data {
            Some(url) => {
                let url = text::trim(url.as_str());
                if url.is_empty() {
                    None
                } else {
                    Some((url.to_owned(), s.media_type))
                }
            },
            None => None,
        },
        None => None,
    }
}

proof fn seen_grows(calls: Seq<RecordedCall>, call: RecordedCall)
    ensures
        forall|url: Seq<char>| #[trigger]
            url_seen(calls.push(call), url) <==> url_seen(calls, url) || image_url(call) == Some(
                url,
            ),
{
    let grown = calls.push(call);
    assert forall|url: Seq<char>| #[trigger]
        url_seen(grown, url) <==> url_seen(calls, url) || image_url(call) == Some(url) by {
        if url_seen(calls, url) {
            let i = choose|i: int|
                0 <= i < calls.len() && image_url(#[trigger] calls[i]) == Some(url);
            assert(image_url(grown[i]) == Some(url));
        }
        if image_url(call) == Some(url) {
            assert(image_url(grown[calls.len() as int]) == Some(url));
        }
        if url_seen(grown, url) && image_url(call) != Some(url) {
            let i = choose|i: int|
                0 <= i < grown.len() && image_url(#[trigger] grown[i]) == Some(url);
            assert(image_url(calls[i]) == Some(url));
        }
    }
}

/// The images that a turn generated, as attachments: each URL once, numbered by the call
/// that it came from. A URL that cannot be decoded is left out.
pub fn generated_image_attachments_for_turn(turn: &Turn) -> (r: Vec<OutgoingAttachment>)
    ensures
        attachment_views(r@) == images(turn.tool_calls@),
{
    let ghost calls = turn.tool_calls@;
    let mut seen: Vec<String> = Vec::new();
    let mut attachments: Vec<OutgoingAttachment> = Vec::new();
    let mut i: usize = 0;
    assert(attachment_views(attachments@) =~= images(calls.take(0)));
    while i < turn.tool_calls.len()
        invariant
            calls == turn.tool_calls@,
            i <= calls.len(),
            attachment_views(attachments@) == images(calls.take(i as int)),
            forall|url: Seq<char>| #[trigger]
                text::holds_text(seen@, url) <==> url_seen(calls.take(i as int), url),
        decreases calls.len() - i,
    {
        let ghost head = calls.take(i as int);
        let ghost next = calls.take(i as int + 1);
        let ghost seen_before = seen@;
        proof {
            assert(next.drop_last() =~= head);
            assert(next =~= head.push(calls[i as int]));
            seen_grows(head, calls[i as int]);
        }
        if let Some((url, media_type)) = call_image(&turn.tool_calls[i]) {
            if !text::contains_text(&seen, url.as_str()) {
                let fallback: Option<&str> = match &media_type {
                    Some(m) => Some(m.as_str()),
                    None => None,
                };
                match generated_image_attachment_from_data_url(url.as_str(), fallback, i) {
                    Some(a) => {
                        let ghost done = attachment_views(attachments@);
                        let ghost view = a@;
                        attachments.push(a);
                        assert(attachment_views(attachments@) =~= done.push(view));
                    },
                    None => {},
                }
                proof {
                    text::holds_text_push(seen_before, url);
                }
                seen.push(url);
            }
        }
        i = i + 1;
    }
    assert(calls.take(calls.len() as int) =~= calls);
    attachments
}

/// The numbers of the images that a list of calls generated.
pub open spec fn image_numbers(calls: Seq<RecordedCall>) -> Seq<nat>
    decreases calls.len(),
{
    if calls.len() == 0 {
        seq![]
    } else if images(calls).len() > images(calls.drop_last()).len() {
        image_numbers(calls.drop_last()).push(calls.len())
    } else {
        image_numbers(calls.drop_last())
    }
}

/// The file is named after a number.
pub open spec fn numbered(a: AttachmentView, n: nat) -> bool {
    a.filename == "generated-image-"@ + text::decimal(n) + "."@ + extension(a.mime_type)
}

/// The images of a turn are numbered by the calls that they came from, in order.
pub proof fn images_are_numbered(calls: Seq<RecordedCall>)
    ensures
        image_numbers(calls).len() == images(calls).len(),
        forall|i: int|
            0 <= i < images(calls).len() ==> numbered(
                #[trigger] images(calls)[i],
                image_numbers(calls)[i],
            ) && 0 < image_numbers(calls)[i] <= calls.len(),
        forall|i: int, j: int|
            0 <= i < j < images(calls).len() ==> #[trigger] image_numbers(calls)[i]
                < #[trigger] image_numbers(calls)[j],
    decreases calls.len(),
{
    if calls.len() > 0 {
        let front = calls.drop_last();
        images_are_numbered(front);
        let n = images(front).len() as int;
        assert forall|i: int| 0 <= i < images(calls).len() implies numbered(
            #[trigger] images(calls)[i],
            image_numbers(calls)[i],
        ) && 0 < image_numbers(calls)[i] <= calls.len() by {
            if i < n {
                assert(images(calls)[i] == images(front)[i]);
                assert(image_numbers(calls)[i] == image_numbers(front)[i]);
            }
        }
        assert forall|i: int, j: int| 0 <= i < j < images(calls).len() implies #[trigger] image_numbers(
            calls,
        )[i] < #[trigger] image_numbers(calls)[j] by {
            assert(image_numbers(calls)[i] == image_numbers(front)[i]);
            assert(images(front)[i] == images(calls)[i]);
            if j < n {
                assert(image_numbers(calls)[j] == image_numbers(front)[j]);
            }
        }
    }
}

/// No two images of a turn have the same file name.
pub proof fn image_names_differ(calls: Seq<RecordedCall>, i: int, j: int)
    requires
        0 <= i < j < images(calls).len(),
    ensures
        images(calls)[i].filename != images(calls)[j].filename,
{
    images_are_numbered(calls);
    let a = image_numbers(calls)[i];
    let b = image_numbers(calls)[j];
    let x = images(calls)[i];
    let y = images(calls)[j];
    assert(numbered(x, a) && numbered(y, b) && a < b);
    if x.filename == y.filename {
        let prefix = "generated-image-"@;
        let da = text::decimal(a);
        let db = text::decimal(b);
        text::decimal_is_digits(a);
        text::decimal_is_digits(b);
        reveal_strlit(".");
        let p = prefix.len() as int;
        let la = da.len() as int;
        let lb = db.len() as int;
        assert(x.filename[p + la] == '.');
        assert(y.filename[p + lb] == '.');
        if la < lb {
            assert(y.filename[p + la] == db[la]);
        }
        if lb < la {
            assert(x.filename[p + lb] == da[lb]);
        }
        assert forall|k: int| 0 <= k < la implies da[k] == db[k] by {
            assert(x.filename[p + k] == da[k]);
            assert(y.filename[p + k] == db[k]);
        }
        assert(da =~= db);
        text::decimal_tells_numbers_apart(a, b);
    }
}

/// The file extension says the image type: each of the known types has its own, and no other
/// type has one of these.
pub proof fn extensions_tell_types_apart(a: Seq<char>, b: Seq<char>)
    ensures
        extension("image/jpeg"@) == "jpg"@,
        extension("image/png"@) == "png"@,
        extension("image/gif"@) == "gif"@,
        extension("image/webp"@) == "webp"@,
        extension(a) == extension(b) && extension(a) != "bin"@ ==> a == b,
        extension(a) == "bin"@ <==> a != "image/jpeg"@ && a != "image/png"@ && a != "image/gif"@
            && a != "image/webp"@,
{
    reveal_strlit("jpg");
    reveal_strlit("png");
    reveal_strlit("gif");
    reveal_strlit("webp");
    reveal_strlit("bin");
    reveal_strlit("image/jpeg");
    reveal_strlit("image/png");
    reveal_strlit("image/gif");
    reveal_strlit("image/webp");
    assert("jpg"@[0] == 'j' && "png"@[0] == 'p' && "gif"@[0] == 'g' && "webp"@[0] == 'w'
        && "bin"@[0] == 'b');
    assert("image/jpeg"@[6] == 'j' && "image/png"@[6] == 'p' && "image/gif"@[6] == 'g'
        && "image/webp"@[6] == 'w');
}

/// A `data:` URL that names an image type and is marked as base64 is split into that type and
/// the text after the comma, whatever the fallback.
pub proof fn image_urls_are_split(
    media_type: Seq<char>,
    encoded: Seq<char>,
    fallback: Option<Seq<char>>,
)
    requires
        text::begins_with(media_type, "image/"@),
        forall|i: int|
            0 <= i < media_type.len() ==> #[trigger] media_type[i] != ',' && media_type[i] != ';',
    ensures
        image_source("data:"@ + media_type + ";base64,"@ + encoded, fallback) matches Some(s)
            && s.media_type == media_type && s.encoded == text::trimmed(encoded),
{
    reveal_strlit("data:");
    reveal_strlit(";base64,");
    reveal_strlit("base64");
    let url = "data:"@ + media_type + ";base64,"@ + encoded;
    let n = 5 + media_type.len() as int;
    let mark = "base64"@;
    assert forall|k: int| 0 <= k < n + 7 implies url[k] != ',' by {
        if 5 <= k < n {
            assert(url[k] == media_type[k - 5]);
        } else if n <= k {
            assert(url[k] == ";base64,"@[k - n]);
        }
    }
    assert(url[n + 7] == ";base64,"@[7]);
    text::head_until_found(url, ',', n + 7);
    let metadata = text::head_until(url, ',');
    assert(metadata.take(5) =~= "data:"@);
    let header = metadata.skip(5);
    assert(header =~= media_type + seq![';'] + mark);
    assert(header[media_type.len() as int] == ';');
    text::head_until_found(header, ';', media_type.len() as int);
    assert(header.take(media_type.len() as int) =~= media_type);
    text::words_are_found_between_separators(media_type, mark, mark, ';');
    assert(url.skip(n + 8) =~= encoded);
}

/// Only a `data:` URL that is marked as base64 stands for an image, and only for one of an
/// image type: the one that it names, or else the fallback, or else PNG.
pub proof fn only_image_urls_are_split(url: Seq<char>, fallback: Option<Seq<char>>)
    ensures
        image_source(url, fallback) matches Some(s) ==> {
            let metadata = text::head_until(url, ',');
            let named = text::head_until(metadata.skip(5), ';');
            &&& text::begins_with(url, "data:"@)
            &&& metadata.len() < url.len()
            &&& text::has_segment(metadata.skip(5), ';', "base64"@)
            &&& text::begins_with(s.media_type, "image/"@)
            &&& text::begins_with(named, "image/"@) ==> s.media_type == named
            &&& !text::begins_with(named, "image/"@) ==> s.media_type == match fallback {
                Some(f) => f,
                None => "image/png"@,
            }
            &&& s.encoded == text::trimmed(url.skip(metadata.len() as int + 1))
        },
{
    text::head_until_is_prefix(url, ',');
    if image_source(url, fallback) is Some {
        let metadata = text::head_until(url, ',');
        let n = "data:"@.len() as int;
        assert(url.take(n) =~= metadata.take(n));
    }
}

/// An attachment holds the bytes and the type of the image; without bytes there is none.
pub proof fn attachments_hold_the_image(
    media_type: Seq<char>,
    data: Option<Seq<u8>>,
    index: nat,
)
    ensures
        attachment(media_type, data, index) is Some <==> data is Some && data->0.len() > 0,
        attachment(media_type, data, index) matches Some(a) ==> {
            &&& a.data == data->0
            &&& a.mime_type == media_type
            &&& numbered(a, index + 1)
        },
{
}

/// The file of an image is named after its number, and ends with the extension of its type.
pub proof fn image_files_are_named(a: AttachmentView, n: nat)
    requires
        numbered(a, n),
    ensures
        submission::names(a.filename, text::decimal(n)),
        ({
            let e = extension(a.mime_type);
            &&& a.filename.len() > e.len()
            &&& a.filename.skip(a.filename.len() - e.len()) == e
        }),
{
    reveal_strlit(".");
    let e = extension(a.mime_type);
    let head = "generated-image-"@;
    let digits = text::decimal(n);
    submission::parts_are_held(head, digits, "."@ + e);
    assert(a.filename =~= head + digits + ("."@ + e));
    assert(a.filename.skip(a.filename.len() - e.len()) =~= e);
}

/// A URL's attachment is that of the bytes that its base64 text spells.
pub proof fn url_attachments_hold_what_is_spelled(
    url: Seq<char>,
    fallback: Option<Seq<char>>,
    index: nat,
)
    ensures
        url_attachment(url, fallback, index) is Some <==> {
            &&& image_source(url, fallback) is Some
            &&& base64_decoded(image_source(url, fallback)->0.encoded) is Some
            &&& base64_decoded(image_source(url, fallback)->0.encoded)->0.len() > 0
        },
        url_attachment(url, fallback, index) matches Some(a) ==> {
            let s = image_source(url, fallback)->0;
            &&& a.data == base64_decoded(s.encoded)->0
            &&& a.mime_type == s.media_type
        },
{
}

/// A call generated an image exactly where its result says so and holds a URL that is not
/// blank; the URL counts without the white space around it.
pub proof fn results_say_which_image(call: RecordedCall)
    ensures
        image_url(call) is Some <==> {
            &&& call.result is Some
            &&& json::json_content(call.result->0).member("type"@) == Some(
                json::JsonContent::Text("image_generated"@),
            )
            &&& json::json_content(call.result->0).member("data"@) is Some
            &&& json::json_content(call.result->0).member("data"@)->0 is Text
            &&& text::trimmed(
                json::json_content(call.result->0).member("data"@)->0->Text_0,
            ).len() > 0
        },
        image_url(call) is Some ==> image_url(call)->0 == text::trimmed(
            json::json_content(call.result->0).member("data"@)->0->Text_0,
        ),
{
}

/// A further call adds its image after those before it, numbered by its place among the
/// calls, unless an earlier call gave the same URL or the URL cannot be decoded. Nothing else
/// changes.
pub proof fn images_are_shown_once(calls: Seq<RecordedCall>, call: RecordedCall)
    ensures
        ({
            let before = images(calls);
            let after = images(calls.push(call));
            let again = exists|i: int|
                0 <= i < calls.len() && image_url(#[trigger] calls[i]) == image_url(call);
            let shown = url_attachment(
                image_url(call)->0,
                json::json_content(call.result->0).text_at("media_type"@),
                calls.len(),
            );
            if image_url(call) is Some && !again && shown is Some {
                &&& after.len() == before.len() + 1
                &&& after.drop_last() == before
                &&& Some(after.last()) == shown
            } else {
                after == before
            }
        }),
        images(Seq::empty()).len() == 0,
{
    assert(calls.push(call).drop_last() =~= calls);
    let before = images(calls);
    let after = images(calls.push(call));
    if image_url(call) is Some {
        let url = image_url(call)->0;
        assert(url_seen(calls, url) <==> exists|i: int|
            0 <= i < calls.len() && image_url(#[trigger] calls[i]) == image_url(call));
    }
    if after.len() > before.len() {
        assert(after.drop_last() =~= before);
    }
}

} // verus!
