use vstd::prelude::*;

use crate::hints::{find, lemma_find_without, without, HintValue, Hints};
use crate::types::{Image, ImageData};

verus! {

/// A `Notify` call as it comes off the wire.
#[derive(Debug)]
pub struct NotificationRequest {
    pub app_name: String,
    pub app_icon: String,
    pub summary: String,
    pub body: String,
    /// Flat list: key, label, key, label, ...
    pub actions: Vec<String>,
    pub hints: Hints,
    /// Milliseconds; negative means "server default".
    pub expire_timeout: i32,
}

/// The decoded content of a notification.
#[derive(Debug)]
pub struct NotificationData {
    pub app_name: Option<String>,
    pub summary: String,
    pub body: Option<String>,
    /// (action key, label) pairs, in order.
    pub actions: Vec<(String, String)>,
    /// Requested lifetime in milliseconds; `None` leaves it to the backend.
    pub expire_timeout: Option<u32>,
    /// 0 = low, 1 = normal, 2 = critical.
    pub urgency: u8,
    pub image: Option<Image>,
    /// The hints that decoding did not consume.
    pub extra: Hints,
}

/// An empty string stands for "absent".
pub open spec fn present(s: String) -> Option<String> {
    if s@.len() == 0 {
        None
    } else {
        Some(s)
    }
}

/// A flat list grouped into consecutive (key, label) pairs; an unpaired
/// last entry is dropped.
pub open spec fn paired(a: Seq<String>) -> Seq<(String, String)> {
    Seq::new((a.len() / 2) as nat, |i: int| (a[2 * i], a[2 * i + 1]))
}

/// A negative timeout leaves the lifetime to the backend.
pub open spec fn timeout_of(t: i32) -> Option<u32> {
    if t < 0 {
        None
    } else {
        Some(t as u32)
    }
}

/// Urgency read from its hint: a byte value, else normal.
pub open spec fn urgency_of(v: Option<HintValue>) -> u8 {
    match v {
        Some(HintValue::Byte(u)) => u,
        _ => 1,
    }
}

/// A structure field as an `i32`.
pub open spec fn field_i32(v: HintValue) -> Option<i32> {
    match v {
        HintValue::Int32(x) => Some(x),
        _ => None,
    }
}

/// A structure field as a `bool`.
pub open spec fn field_bool(v: HintValue) -> Option<bool> {
    match v {
        HintValue::Bool(x) => Some(x),
        _ => None,
    }
}

/// A structure field as an array of bytes.
pub open spec fn field_bytes(v: HintValue) -> Option<Vec<u8>> {
    match v {
        HintValue::Bytes(x) => Some(x),
        _ => None,
    }
}

/// The pixel record of a structured image value: a structure of exactly
/// seven fields, width, height, row stride, has-alpha, bits per sample,
/// channel count and pixel bytes (wire type `(iiibiiay)`). A field of the
/// wrong type, or a field too many or too few, leaves no record at all.
pub open spec fn pixel_record(v: HintValue) -> Option<ImageData> {
    match v {
        HintValue::Struct(f) => if f@.len() == 7 && field_i32(f@[0]) is Some && field_i32(f@[1]) is Some
            && field_i32(f@[2]) is Some && field_bool(f@[3]) is Some && field_i32(f@[4]) is Some
            && field_i32(f@[5]) is Some && field_bytes(f@[6]) is Some {
            Some(
                ImageData {
                    width: field_i32(f@[0]).unwrap(),
                    height: field_i32(f@[1]).unwrap(),
                    rowstride: field_i32(f@[2]).unwrap(),
                    has_alpha: field_bool(f@[3]).unwrap(),
                    bits_per_sample: field_i32(f@[4]).unwrap(),
                    channels: field_i32(f@[5]).unwrap(),
                    data: field_bytes(f@[6]).unwrap(),
                },
            )
        } else {
            None
        },
        _ => None,
    }
}

/// A structured image hint as an image; any other value is a miss.
pub open spec fn data_image(v: Option<HintValue>) -> Option<Image> {
    match v {
        Some(x) => match pixel_record(x) {
            Some(d) => Some(Image::Data(d)),
            None => None,
        },
        None => None,
    }
}

/// A text hint as an image path; any other value is a miss.
pub open spec fn path_image(v: Option<HintValue>) -> Option<Image> {
    match v {
        Some(HintValue::Text(s)) => Some(Image::Path(s)),
        _ => None,
    }
}

/// The application icon, when given, as an image path.
pub open spec fn icon_image(icon: String) -> Option<Image> {
    if icon@.len() == 0 {
        None
    } else {
        Some(Image::Path(icon))
    }
}

pub open spec fn first_of(a: Option<Image>, b: Option<Image>) -> Option<Image> {
    if a is Some {
        a
    } else {
        b
    }
}

/// The image of a notification: the first candidate that decodes, in the
/// order image-data, image_data, image-path, image_path, the application
/// icon, icon_data.
pub open spec fn resolve_image(h: Seq<(String, HintValue)>, icon: String) -> Option<Image> {
    first_of(
        data_image(find(h, "image-data"@)),
        first_of(
            data_image(find(h, "image_data"@)),
            first_of(
                path_image(find(h, "image-path"@)),
                first_of(
                    path_image(find(h, "image_path"@)),
                    first_of(icon_image(icon), data_image(find(h, "icon_data"@))),
                ),
            ),
        ),
    )
}

/// The hints left once urgency and every image key are taken out.
pub open spec fn residual(h: Seq<(String, HintValue)>) -> Seq<(String, HintValue)> {
    without(
        without(
            without(
                without(without(without(h, "urgency"@), "image-data"@), "image_data"@),
                "image-path"@,
            ),
            "image_path"@,
        ),
        "icon_data"@,
    )
}

/// `data` is what a request with these fields decodes to.
pub open spec fn decodes_to(
    app_name: String,
    app_icon: String,
    summary: String,
    body: String,
    actions: Seq<String>,
    hints: Seq<(String, HintValue)>,
    expire_timeout: i32,
    data: NotificationData,
) -> bool {
    &&& data.app_name == present(app_name)
    &&& data.summary == summary
    &&& data.body == present(body)
    &&& data.actions@ == paired(actions)
    &&& data.expire_timeout == timeout_of(expire_timeout)
    &&& data.urgency == urgency_of(find(hints, "urgency"@))
    &&& data.image == resolve_image(hints, app_icon)
    &&& data.extra@ == residual(hints)
}

fn read_i32(v: &HintValue) -> (r: Option<i32>)
    ensures
        r == field_i32(*v),
{
    match v {
        HintValue::Int32(x) => Some(*x),
        _ => None,
    }
}

fn read_bool(v: &HintValue) -> (r: Option<bool>)
    ensures
        r == field_bool(*v),
{
    match v {
        HintValue::Bool(x) => Some(*x),
        _ => None,
    }
}

fn read_bytes(v: HintValue) -> (r: Option<Vec<u8>>)
    ensures
        r == field_bytes(v),
{
    match v {
        HintValue::Bytes(x) => Some(x),
        _ => None,
    }
}

/// Decodes the pixel record of a structured image value.
pub fn pixel_data(value: HintValue) -> (r: Option<ImageData>)
    ensures
        r == pixel_record(value),
{
    match value {
        HintValue::Struct(mut fields) => {
            if fields.len() != 7 {
                return None;
            }
            let width = read_i32(&fields[0]);
            let height = read_i32(&fields[1]);
            let rowstride = read_i32(&fields[2]);
            let has_alpha = read_bool(&fields[3]);
            let bits_per_sample = read_i32(&fields[4]);
            let channels = read_i32(&fields[5]);
            let data = read_bytes(fields.remove(6));
            match (width, height, rowstride, has_alpha, bits_per_sample, channels, data) {
                (
                    Some(width),
                    Some(height),
                    Some(rowstride),
                    Some(has_alpha),
                    Some(bits_per_sample),
                    Some(channels),
                    Some(data),
                ) => Some(
                    ImageData { width, height, rowstride, has_alpha, bits_per_sample, channels, data },
                ),
                _ => None,
            }
        },
        _ => None,
    }
}

/// The image carried by a structured image hint, if it decodes.
pub fn image_data(value: Option<HintValue>) -> (r: Option<Image>)
    ensures
        r == data_image(value),
{
    match value {
        Some(v) => match pixel_data(v) {
            Some(d) => Some(Image::Data(d)),
            None => None,
        },
        None => None,
    }
}

/// The path carried by a hint value, if it is text.
pub fn image_path(value: Option<HintValue>) -> (r: Option<Image>)
    ensures
        r == path_image(value),
{
    match value {
        Some(HintValue::Text(s)) => Some(Image::Path(s)),
        _ => None,
    }
}

fn non_empty(s: String) -> (r: Option<String>)
    ensures
        r == present(s),
{
    if s.as_str().is_empty() {
        None
    } else {
        Some(s)
    }
}

/// Groups a flat action list into (key, label) pairs, dropping an
/// unpaired last entry.
pub fn pair_actions(actions: &Vec<String>) -> (r: Vec<(String, String)>)
    ensures
        r@ == paired(actions@),
{
    let mut out: Vec<(String, String)> = Vec::new();
    let mut j: usize = 0;
    while j + 1 < actions.len()
        invariant
            j % 2 == 0,
            j <= actions@.len(),
            out@ == paired(actions@).take(j as int / 2),
        decreases actions@.len() - j,
    {
        let k = actions[j].clone();
        let l = actions[j + 1].clone();
        out.push((k, l));
        j = j + 2;
        assert(out@ == paired(actions@).take(j as int / 2));
    }
    assert(out@ == paired(actions@));
    out
}

/// Decodes a request into notification content. Never fails: a hint of the
/// wrong shape counts as absent.
pub fn parse_data(req: NotificationRequest) -> (r: NotificationData)
    requires
        req.hints.wf(),
    ensures
        r.extra.wf(),
        r.app_name == present(req.app_name),
        r.summary == req.summary,
        r.body == present(req.body),
        r.actions@ == paired(req.actions@),
        r.expire_timeout == timeout_of(req.expire_timeout),
        r.urgency == urgency_of(find(req.hints@, "urgency"@)),
        r.image == resolve_image(req.hints@, req.app_icon),
        r.extra@ == residual(req.hints@),
{
    let ghost h = req.hints@;
    let mut hints = req.hints;
    let actions = pair_actions(&req.actions);
    let expire_timeout = if req.expire_timeout < 0 {
        None
    } else {
        Some(req.expire_timeout as u32)
    };
    proof {
        lemma_keys_distinct();
    }
    let urgency: u8 = match hints.remove(&"urgency".to_owned()) {
        Some(HintValue::Byte(u)) => u,
        _ => 1,
    };
    let ghost h1 = hints@;
    let from_data = image_data(hints.remove(&"image-data".to_owned()));
    let ghost h2 = hints@;
    let from_alias = image_data(hints.remove(&"image_data".to_owned()));
    let ghost h3 = hints@;
    let from_path = image_path(hints.remove(&"image-path".to_owned()));
    let ghost h4 = hints@;
    let from_path_alias = image_path(hints.remove(&"image_path".to_owned()));
    let from_icon_data = image_data(hints.remove(&"icon_data".to_owned()));
    proof {
        lemma_find_without(h, "urgency"@, "image-data"@);
        lemma_find_without(h, "urgency"@, "image_data"@);
        lemma_find_without(h1, "image-data"@, "image_data"@);
        lemma_find_without(h, "urgency"@, "image-path"@);
        lemma_find_without(h1, "image-data"@, "image-path"@);
        lemma_find_without(h2, "image_data"@, "image-path"@);
        lemma_find_without(h, "urgency"@, "image_path"@);
        lemma_find_without(h1, "image-data"@, "image_path"@);
        lemma_find_without(h2, "image_data"@, "image_path"@);
        lemma_find_without(h3, "image-path"@, "image_path"@);
        lemma_find_without(h, "urgency"@, "icon_data"@);
        lemma_find_without(h1, "image-data"@, "icon_data"@);
        lemma_find_without(h2, "image_data"@, "icon_data"@);
        lemma_find_without(h3, "image-path"@, "icon_data"@);
        lemma_find_without(h4, "image_path"@, "icon_data"@);
    }
    let image = if from_data.is_some() {
        from_data
    } else if from_alias.is_some() {
        from_alias
    } else if from_path.is_some() {
        from_path
    } else if from_path_alias.is_some() {
        from_path_alias
    } else if !req.app_icon.as_str().is_empty() {
        Some(Image::Path(req.app_icon))
    } else {
        from_icon_data
    };
    NotificationData {
        app_name: non_empty(req.app_name),
        summary: req.summary,
        body: non_empty(req.body),
        actions,
        expire_timeout,
        urgency,
        image,
        extra: hints,
    }
}

/// A well-formed `image-data` hint decides the image, whatever else the
/// hints hold (an `image-path` among them).
pub proof fn lemma_image_data_wins(h: Seq<(String, HintValue)>, icon: String, d: ImageData)
    requires
        find(h, "image-data"@) matches Some(v) && pixel_record(v) == Some(d),
    ensures
        resolve_image(h, icon) == Some(Image::Data(d)),
{
}

/// With no other image hint and no application icon, the image comes
/// from `icon_data`.
pub proof fn lemma_icon_data_fallback(h: Seq<(String, HintValue)>, icon: String)
    requires
        find(h, "image-data"@) is None,
        find(h, "image_data"@) is None,
        find(h, "image-path"@) is None,
        find(h, "image_path"@) is None,
        icon@.len() == 0,
    ensures
        resolve_image(h, icon) == data_image(find(h, "icon_data"@)),
{
}

/// An action list of odd length loses only its unpaired last entry.
pub proof fn lemma_odd_actions_truncated(a: Seq<String>)
    requires
        a.len() % 2 == 1,
    ensures
        paired(a) == paired(a.drop_last()),
        paired(a).len() == (a.len() - 1) / 2,
{
    assert(paired(a) =~= paired(a.drop_last()));
}

/// The hint keys that decoding reads are pairwise different.
proof fn lemma_keys_distinct()
    ensures
        "urgency"@ != "image-data"@,
        "urgency"@ != "image_data"@,
        "urgency"@ != "image-path"@,
        "urgency"@ != "image_path"@,
        "urgency"@ != "icon_data"@,
        "image-data"@ != "image_data"@,
        "image-data"@ != "image-path"@,
        "image-data"@ != "image_path"@,
        "image-data"@ != "icon_data"@,
        "image_data"@ != "image-path"@,
        "image_data"@ != "image_path"@,
        "image_data"@ != "icon_data"@,
        "image-path"@ != "image_path"@,
        "image-path"@ != "icon_data"@,
        "image_path"@ != "icon_data"@,
{
    reveal_strlit("urgency");
    reveal_strlit("image-data");
    reveal_strlit("image_data");
    reveal_strlit("image-path");
    reveal_strlit("image_path");
    reveal_strlit("icon_data");
    assert("urgency"@[0] != "image-data"@[0]);
    assert("urgency"@[0] != "icon_data"@[0]);
    assert("image-data"@[5] != "image_data"@[5]);
    assert("image-data"@[6] != "image-path"@[6]);
    assert("image-data"@[6] != "image_path"@[6]);
    assert("image_data"@[6] != "image-path"@[6]);
    assert("image_data"@[6] != "image_path"@[6]);
    assert("image-path"@[5] != "image_path"@[5]);
    assert("image-data"@[1] != "icon_data"@[1]);
    assert("image_data"@[1] != "icon_data"@[1]);
    assert("image-path"@[1] != "icon_data"@[1]);
    assert("image_path"@[1] != "icon_data"@[1]);
}

} // verus!
