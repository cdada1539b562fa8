use vstd::prelude::*;

verus! {

use crate::api::FetchError;
use crate::post::{
    posts_view, sources_view, Image, ImageSource, ImageSourceV, ImageV, Post, PostV, Preview,
    PreviewV,
};

/// serde_json's document type; only the trusted conversion below reads it.
#[verifier::external_type_specification]
#[verifier::external_body]
pub struct ExValue(serde_json::Value);

/// A JSON document copied into plain values the library owns, so that every
/// walk over a response body is verified. Integers keep their exact value;
/// a number that fits neither integer kind is only marked, since no field
/// this client reads may be fractional.
#[derive(Debug)]
pub enum Json {
    Null,
    Bool(bool),
    /// A negative integer; the parser keeps non-negative integers unsigned.
    Int(i64),
    /// A non-negative integer.
    UInt(u64),
    /// A number that fits neither `Int` nor `UInt`: a fraction.
    FracNum,
    Str(String),
    Array(Vec<Json>),
    /// An object's entries in the parser's map order, keys unique.
    Object(Vec<(String, Json)>),
}

/// The document a body parses to: `Some` exactly on valid JSON. A function
/// of the body alone; what it yields on a given body is decided by the
/// trusted parser below.
pub uninterp spec fn json_doc_of(s: Seq<char>) -> Option<Json>;

/// Relies on serde_json::from_str to parse the body — `Some` exactly when
/// it is a valid JSON document — and on `to_tree` to copy the result out.
#[verifier::external_body]
pub fn parse_json_tree(s: &str) -> (r: Option<Json>)
    ensures
        r == json_doc_of(s@),
{
    serde_json::from_str::<serde_json::Value>(s).ok().map(|v| to_tree(&v))
}

/// The conversion half of `parse_json_tree`: relies on serde_json::Value,
/// one arm per variant, copying each field. Numbers go through
/// Number::as_u64 and Number::as_i64, so a fraction is exactly what fits
/// neither.
#[verifier::external_body]
fn to_tree(v: &serde_json::Value) -> Json {
    match v {
        serde_json::Value::Null => Json::Null,
        serde_json::Value::Bool(b) => Json::Bool(*b),
        serde_json::Value::Number(n) => match (n.as_u64(), n.as_i64()) {
            (Some(u), _) => Json::UInt(u),
            (None, Some(i)) => Json::Int(i),
            (None, None) => Json::FracNum,
        },
        serde_json::Value::String(s) => Json::Str(s.clone()),
        serde_json::Value::Array(xs) => Json::Array(xs.iter().map(to_tree).collect()),
        serde_json::Value::Object(m) => Json::Object(
            m.iter().map(|(k, x)| (k.clone(), to_tree(x))).collect(),
        ),
    }
}

/// The first entry named `key`, searched front to back.
pub open spec fn spec_entries_get(entries: Seq<(String, Json)>, key: Seq<char>) -> Option<Json>
    decreases entries.len(),
{
    if entries.len() == 0 {
        None
    } else if entries[0].0@ == key {
        Some(entries[0].1)
    } else {
        spec_entries_get(entries.drop_first(), key)
    }
}

/// The named field of `v`, when `v` is an object that holds it.
pub open spec fn spec_get(v: Json, key: Seq<char>) -> Option<Json> {
    match v {
        Json::Object(entries) => spec_entries_get(entries@, key),
        _ => None,
    }
}

/// The named field when it is a string.
pub open spec fn spec_str_field(v: Json, key: Seq<char>) -> Option<Seq<char>> {
    match spec_get(v, key) {
        Some(Json::Str(s)) => Some(s@),
        _ => None,
    }
}

/// The named field when it is a boolean.
pub open spec fn spec_bool_field(v: Json, key: Seq<char>) -> Option<bool> {
    match spec_get(v, key) {
        Some(Json::Bool(b)) => Some(b),
        _ => None,
    }
}

/// The named field read as a signed integer, when it has one's value.
pub open spec fn spec_i64_field(v: Json, key: Seq<char>) -> Option<i64> {
    match spec_get(v, key) {
        Some(Json::Int(i)) => Some(i),
        Some(Json::UInt(u)) => if u <= i64::MAX {
            Some(u as i64)
        } else {
            None
        },
        _ => None,
    }
}

/// The named field when it is a non-negative integer.
pub open spec fn spec_u64_field(v: Json, key: Seq<char>) -> Option<u64> {
    match spec_get(v, key) {
        Some(Json::UInt(u)) => Some(u),
        _ => None,
    }
}

/// Looks the named field up in an object.
pub(crate) fn json_get<'a>(v: &'a Json, key: &str) -> (r: Option<&'a Json>)
    ensures
        r matches Some(x) ==> spec_get(*v, key@) == Some(*x),
        r is None ==> spec_get(*v, key@) is None,
{
    let needle = key.to_owned();
    match v {
        Json::Object(entries) => {
            let mut i: usize = 0;
            proof {
                assert(entries@.skip(0) =~= entries@);
                assert(spec_get(*v, key@) == spec_entries_get(entries@, key@));
            }
            while i < entries.len()
                invariant
                    i <= entries@.len(),
                    needle@ == key@,
                    spec_get(*v, key@) == spec_entries_get(entries@, key@),
                    spec_entries_get(entries@, key@) == spec_entries_get(
                        entries@.skip(i as int),
                        key@,
                    ),
                decreases entries@.len() - i,
            {
                proof {
                    assert(entries@.skip(i as int)[0] == entries@[i as int]);
                    assert(entries@.skip(i as int).drop_first() =~= entries@.skip(i + 1));
                }
                if entries[i].0.eq(&needle) {
                    proof {
                        assert(entries@[i as int].0@ == key@);
                        assert(spec_entries_get(entries@.skip(i as int), key@) == Some(
                            entries@[i as int].1,
                        ));
                    }
                    return Some(&entries[i].1);
                }
                i = i + 1;
            }
            proof {
                assert(entries@.skip(entries@.len() as int) =~= Seq::<(String, Json)>::empty());
            }
            None
        },
        _ => None,
    }
}

/// The named field when it is a string, copied out.
pub(crate) fn json_str_field(v: &Json, key: &str) -> (r: Option<String>)
    ensures
        r matches Some(s) ==> spec_str_field(*v, key@) == Some(s@),
        r is None ==> spec_str_field(*v, key@) is None,
{
    match json_get(v, key) {
        Some(Json::Str(s)) => Some(s.clone()),
        _ => None,
    }
}

/// The named field when it is a boolean.
pub(crate) fn json_bool_field(v: &Json, key: &str) -> (r: Option<bool>)
    ensures
        r == spec_bool_field(*v, key@),
{
    match json_get(v, key) {
        Some(Json::Bool(b)) => Some(*b),
        _ => None,
    }
}

/// The named field read as a signed integer.
pub(crate) fn json_i64_field(v: &Json, key: &str) -> (r: Option<i64>)
    ensures
        r == spec_i64_field(*v, key@),
{
    match json_get(v, key) {
        Some(Json::Int(i)) => Some(*i),
        Some(Json::UInt(u)) => {
            if *u <= i64::MAX as u64 {
                Some(*u as i64)
            } else {
                None
            }
        },
        _ => None,
    }
}

/// The named field when it is a non-negative integer.
pub(crate) fn json_u64_field(v: &Json, key: &str) -> (r: Option<u64>)
    ensures
        r == spec_u64_field(*v, key@),
{
    match json_get(v, key) {
        Some(Json::UInt(u)) => Some(*u),
        _ => None,
    }
}

/// One image rendition: a string `url` and an unsigned `height` that fits
/// the pixel-height field.
pub open spec fn spec_decode_source(v: Json) -> Option<ImageSourceV> {
    match (spec_str_field(v, "url"@), spec_u64_field(v, "height"@)) {
        (Some(url), Some(h)) => if h <= u32::MAX {
            Some(ImageSourceV { url: url, height: h as u32 })
        } else {
            None
        },
        _ => None,
    }
}

fn decode_image_source(v: &Json) -> (r: Result<ImageSource, FetchError>)
    ensures
        r matches Ok(src) ==> spec_decode_source(*v) == Some(src@),
        r is Err ==> r == Err::<ImageSource, FetchError>(FetchError::Decode)
            && spec_decode_source(*v) is None,
{
    let url = match json_str_field(v, "url") {
        Some(s) => s,
        None => {
            return Err(FetchError::Decode);
        },
    };
    let height = match json_u64_field(v, "height") {
        Some(n) => n,
        None => {
            return Err(FetchError::Decode);
        },
    };
    if height > u32::MAX as u64 {
        return Err(FetchError::Decode);
    }
    Ok(ImageSource { url, height: height as u32 })
}

/// Every rendition of the list, in order; `None` as soon as one is
/// malformed.
pub open spec fn spec_decode_sources(xs: Seq<Json>) -> Option<Seq<ImageSourceV>>
    decreases xs.len(),
{
    if xs.len() == 0 {
        Some(Seq::empty())
    } else {
        match (spec_decode_source(xs[0]), spec_decode_sources(xs.drop_first())) {
            (Some(s), Some(rest)) => Some(seq![s] + rest),
            _ => None,
        }
    }
}

fn decode_sources(xs: &Vec<Json>) -> (r: Result<Vec<ImageSource>, FetchError>)
    ensures
        r matches Ok(srcs) ==> spec_decode_sources(xs@) == Some(sources_view(srcs@)),
        r is Err ==> r == Err::<Vec<ImageSource>, FetchError>(FetchError::Decode)
            && spec_decode_sources(xs@) is None,
{
    let mut acc: Vec<ImageSource> = Vec::new();
    let mut i: usize = 0;
    proof {
        assert(xs@.skip(0) =~= xs@);
        assert(sources_view(acc@) =~= Seq::<ImageSourceV>::empty());
    }
    while i < xs.len()
        invariant
            i <= xs@.len(),
            match spec_decode_sources(xs@.skip(i as int)) {
                Some(rest) => spec_decode_sources(xs@) == Some(sources_view(acc@) + rest),
                None => spec_decode_sources(xs@) is None,
            },
        decreases xs@.len() - i,
    {
        let ghost rest_seq = xs@.skip(i as int);
        proof {
            assert(rest_seq[0] == xs@[i as int]);
            assert(rest_seq.drop_first() =~= xs@.skip(i + 1));
        }
        match decode_image_source(&xs[i]) {
            Ok(src) => {
                let ghost old_acc = acc@;
                acc.push(src);
                proof {
                    assert(sources_view(acc@) =~= sources_view(old_acc) + seq![src@]);
                    if spec_decode_sources(xs@.skip(i + 1)) is Some {
                        let rest2 = spec_decode_sources(xs@.skip(i + 1))->0;
                        assert(spec_decode_sources(rest_seq) == Some(seq![src@] + rest2));
                        assert(sources_view(old_acc) + (seq![src@] + rest2) =~= sources_view(acc@)
                            + rest2);
                    }
                }
            },
            Err(e) => {
                return Err(e);
            },
        }
        i = i + 1;
    }
    proof {
        assert(xs@.skip(xs@.len() as int) =~= Seq::<Json>::empty());
        assert(sources_view(acc@) + Seq::<ImageSourceV>::empty() =~= sources_view(acc@));
    }
    Ok(acc)
}

/// One preview image: its full-size `source` and its `resolutions` list.
pub open spec fn spec_decode_image(v: Json) -> Option<ImageV> {
    match spec_get(v, "source"@) {
        Some(src) => match spec_decode_source(src) {
            Some(source) => match spec_get(v, "resolutions"@) {
                Some(Json::Array(xs)) => match spec_decode_sources(xs@) {
                    Some(resolutions) => Some(ImageV { source, resolutions }),
                    None => None,
                },
                _ => None,
            },
            None => None,
        },
        None => None,
    }
}

fn decode_image(v: &Json) -> (r: Result<Image, FetchError>)
    ensures
        r matches Ok(img) ==> spec_decode_image(*v) == Some(img@),
        r is Err ==> r == Err::<Image, FetchError>(FetchError::Decode)
            && spec_decode_image(*v) is None,
{
    let source = match json_get(v, "source") {
        Some(src) => match decode_image_source(src) {
            Ok(s) => s,
            Err(e) => {
                return Err(e);
            },
        },
        None => {
            return Err(FetchError::Decode);
        },
    };
    match json_get(v, "resolutions") {
        Some(Json::Array(xs)) => match decode_sources(xs) {
            Ok(resolutions) => Ok(Image { source, resolutions }),
            Err(e) => Err(e),
        },
        _ => Err(FetchError::Decode),
    }
}

/// Every preview image of the list, in order.
pub open spec fn spec_decode_images(xs: Seq<Json>) -> Option<Seq<ImageV>>
    decreases xs.len(),
{
    if xs.len() == 0 {
        Some(Seq::empty())
    } else {
        match (spec_decode_image(xs[0]), spec_decode_images(xs.drop_first())) {
            (Some(img), Some(rest)) => Some(seq![img] + rest),
            _ => None,
        }
    }
}

/// The preview block of a post: a list of `images`.
pub open spec fn spec_decode_preview(v: Json) -> Option<PreviewV> {
    match spec_get(v, "images"@) {
        Some(Json::Array(xs)) => match spec_decode_images(xs@) {
            Some(images) => Some(PreviewV { images }),
            None => None,
        },
        _ => None,
    }
}

fn decode_preview(v: &Json) -> (r: Result<Preview, FetchError>)
    ensures
        r matches Ok(pv) ==> spec_decode_preview(*v) == Some(pv@),
        r is Err ==> r == Err::<Preview, FetchError>(FetchError::Decode)
            && spec_decode_preview(*v) is None,
{
    let xs = match json_get(v, "images") {
        Some(Json::Array(xs)) => xs,
        _ => {
            return Err(FetchError::Decode);
        },
    };
    let mut acc: Vec<Image> = Vec::new();
    let mut i: usize = 0;
    proof {
        assert(xs@.skip(0) =~= xs@);
        assert(crate::post::images_view(acc@) =~= Seq::<ImageV>::empty());
    }
    while i < xs.len()
        invariant
            i <= xs@.len(),
            spec_get(*v, "images"@) == Some(Json::Array(*xs)),
            match spec_decode_images(xs@.skip(i as int)) {
                Some(rest) => spec_decode_images(xs@) == Some(
                    crate::post::images_view(acc@) + rest,
                ),
                None => spec_decode_images(xs@) is None,
            },
        decreases xs@.len() - i,
    {
        let ghost rest_seq = xs@.skip(i as int);
        proof {
            assert(rest_seq[0] == xs@[i as int]);
            assert(rest_seq.drop_first() =~= xs@.skip(i + 1));
        }
        match decode_image(&xs[i]) {
            Ok(img) => {
                let ghost old_acc = acc@;
                acc.push(img);
                proof {
                    assert(crate::post::images_view(acc@) =~= crate::post::images_view(old_acc)
                        + seq![img@]);
                    if spec_decode_images(xs@.skip(i + 1)) is Some {
                        let rest2 = spec_decode_images(xs@.skip(i + 1))->0;
                        assert(spec_decode_images(rest_seq) == Some(seq![img@] + rest2));
                        assert(crate::post::images_view(old_acc) + (seq![img@] + rest2)
                            =~= crate::post::images_view(acc@) + rest2);
                    }
                }
            },
            Err(e) => {
                proof {
                    assert(spec_decode_images(rest_seq) is None);
                    assert(spec_decode_images(xs@) is None);
                }
                return Err(e);
            },
        }
        i = i + 1;
    }
    proof {
        assert(xs@.skip(xs@.len() as int) =~= Seq::<Json>::empty());
        assert(crate::post::images_view(acc@) + Seq::<ImageV>::empty()
            =~= crate::post::images_view(acc@));
    }
    Ok(Preview { images: acc })
}

/// A post's preview: absent or null is no preview; present, it must be a
/// well-formed preview block.
pub open spec fn spec_post_preview(v: Json) -> Option<Option<PreviewV>> {
    match spec_get(v, "preview"@) {
        None => Some(None),
        Some(Json::Null) => Some(None),
        Some(p) => match spec_decode_preview(p) {
            Some(pv) => Some(Some(pv)),
            None => None,
        },
    }
}

/// One post record. Every field but the preview is required; a score
/// outside `i32` or a height outside `u32` is a malformed record.
pub open spec fn spec_decode_post(v: Json) -> Option<PostV> {
    match (
        spec_str_field(v, "title"@),
        spec_str_field(v, "author"@),
        spec_str_field(v, "subreddit"@),
        spec_str_field(v, "url"@),
        spec_str_field(v, "thumbnail"@),
        spec_i64_field(v, "score"@),
    ) {
        (Some(title), Some(author), Some(subreddit), Some(url), Some(thumbnail), Some(score)) => {
            if score < i32::MIN || score > i32::MAX {
                None
            } else {
                match spec_post_preview(v) {
                    Some(preview) => Some(
                        PostV {
                            title,
                            author,
                            subreddit,
                            score: score as i32,
                            url,
                            thumbnail,
                            preview,
                        },
                    ),
                    None => None,
                }
            }
        },
        _ => None,
    }
}

fn decode_post(v: &Json) -> (r: Result<Post, FetchError>)
    ensures
        r matches Ok(p) ==> spec_decode_post(*v) == Some(p@),
        r is Err ==> r == Err::<Post, FetchError>(FetchError::Decode)
            && spec_decode_post(*v) is None,
{
    let title = match json_str_field(v, "title") {
        Some(s) => s,
        None => {
            return Err(FetchError::Decode);
        },
    };
    let author = match json_str_field(v, "author") {
        Some(s) => s,
        None => {
            return Err(FetchError::Decode);
        },
    };
    let subreddit = match json_str_field(v, "subreddit") {
        Some(s) => s,
        None => {
            return Err(FetchError::Decode);
        },
    };
    let url = match json_str_field(v, "url") {
        Some(s) => s,
        None => {
            return Err(FetchError::Decode);
        },
    };
    let thumbnail = match json_str_field(v, "thumbnail") {
        Some(s) => s,
        None => {
            return Err(FetchError::Decode);
        },
    };
    let score_wide = match json_i64_field(v, "score") {
        Some(n) => n,
        None => {
            return Err(FetchError::Decode);
        },
    };
    if score_wide < i32::MIN as i64 || score_wide > i32::MAX as i64 {
        return Err(FetchError::Decode);
    }
    let preview = match json_get(v, "preview") {
        None => None,
        Some(Json::Null) => None,
        Some(p) => match decode_preview(p) {
            Ok(pv) => Some(pv),
            Err(e) => {
                return Err(e);
            },
        },
    };
    Ok(
        Post {
            title,
            author,
            subreddit,
            score: score_wide as i32,
            url,
            thumbnail,
            preview,
        },
    )
}

/// The post of one listing child: its `data` record.
pub open spec fn spec_child_post(c: Json) -> Option<PostV> {
    match spec_get(c, "data"@) {
        Some(d) => spec_decode_post(d),
        None => None,
    }
}

/// Every child's post, in listing order.
pub open spec fn spec_decode_children(cs: Seq<Json>) -> Option<Seq<PostV>>
    decreases cs.len(),
{
    if cs.len() == 0 {
        Some(Seq::empty())
    } else {
        match (spec_child_post(cs[0]), spec_decode_children(cs.drop_first())) {
            (Some(p), Some(rest)) => Some(seq![p] + rest),
            _ => None,
        }
    }
}

/// The listing's `after` cursor: absent or null means no further page; a
/// string is the token; anything else is malformed.
pub open spec fn spec_listing_after(data: Json) -> Option<Option<Seq<char>>> {
    match spec_get(data, "after"@) {
        None => Some(None),
        Some(Json::Null) => Some(None),
        Some(Json::Str(t)) => Some(Some(t@)),
        Some(_) => None,
    }
}

/// What a listing body denotes: the children's posts in API order and the
/// cursor of the page after them; `None` exactly when the body does not
/// match the listing shape.
pub open spec fn spec_decode_listing(doc: Option<Json>) -> Option<
    (Seq<PostV>, Option<Seq<char>>),
> {
    match doc {
        None => None,
        Some(root) => match spec_get(root, "data"@) {
            Some(data) => match spec_get(data, "children"@) {
                Some(Json::Array(cs)) => match (
                    spec_decode_children(cs@),
                    spec_listing_after(data),
                ) {
                    (Some(ps), Some(after)) => Some((ps, after)),
                    _ => None,
                },
                _ => None,
            },
            None => None,
        },
    }
}

/// The abstract value of an optional pagination token.
pub open spec fn opt_string_view(s: Option<String>) -> Option<Seq<char>> {
    match s {
        Some(t) => Some(t@),
        None => None,
    }
}

/// The abstract values of a sequence of names.
pub open spec fn strings_view(s: Seq<String>) -> Seq<Seq<char>> {
    s.map_values(|x: String| x@)
}

/// Decodes a listing response body into its posts, in API order, and the
/// cursor of the page after them: exactly what the body denotes, or the
/// decode error exactly when it denotes nothing.
pub fn decode_listing(body: &str) -> (r: Result<(Vec<Post>, Option<String>), FetchError>)
    ensures
        r matches Ok(page) ==> spec_decode_listing(json_doc_of(body@)) == Some(
            (posts_view(page.0@), opt_string_view(page.1)),
        ),
        r is Err ==> r == Err::<(Vec<Post>, Option<String>), FetchError>(FetchError::Decode)
            && spec_decode_listing(json_doc_of(body@)) is None,
{
    let root = match parse_json_tree(body) {
        Some(d) => d,
        None => {
            return Err(FetchError::Decode);
        },
    };
    let data = match json_get(&root, "data") {
        Some(d) => d,
        None => {
            return Err(FetchError::Decode);
        },
    };
    let children = match json_get(data, "children") {
        Some(Json::Array(cs)) => cs,
        _ => {
            return Err(FetchError::Decode);
        },
    };
    let mut posts: Vec<Post> = Vec::new();
    let mut i: usize = 0;
    proof {
        assert(children@.skip(0) =~= children@);
        assert(posts_view(posts@) =~= Seq::<PostV>::empty());
    }
    while i < children.len()
        invariant
            i <= children@.len(),
            json_doc_of(body@) == Some(root),
            spec_get(root, "data"@) == Some(*data),
            spec_get(*data, "children"@) == Some(Json::Array(*children)),
            match spec_decode_children(children@.skip(i as int)) {
                Some(rest) => spec_decode_children(children@) == Some(posts_view(posts@) + rest),
                None => spec_decode_children(children@) is None,
            },
        decreases children@.len() - i,
    {
        let ghost rest_seq = children@.skip(i as int);
        proof {
            assert(rest_seq[0] == children@[i as int]);
            assert(rest_seq.drop_first() =~= children@.skip(i + 1));
        }
        let child_data = match json_get(&children[i], "data") {
            Some(d) => d,
            None => {
                proof {
                    assert(spec_child_post(rest_seq[0]) is None);
                    assert(spec_decode_children(rest_seq) is None);
                    assert(spec_decode_children(children@) is None);
                }
                return Err(FetchError::Decode);
            },
        };
        match decode_post(child_data) {
            Ok(p) => {
                let ghost old_posts = posts@;
                posts.push(p);
                proof {
                    assert(posts_view(posts@) =~= posts_view(old_posts) + seq![p@]);
                    if spec_decode_children(children@.skip(i + 1)) is Some {
                        let rest2 = spec_decode_children(children@.skip(i + 1))->0;
                        assert(spec_decode_children(rest_seq) == Some(seq![p@] + rest2));
                        assert(posts_view(old_posts) + (seq![p@] + rest2) =~= posts_view(posts@)
                            + rest2);
                    }
                }
            },
            Err(e) => {
                proof {
                    assert(spec_child_post(rest_seq[0]) is None);
                    assert(spec_decode_children(rest_seq) is None);
                    assert(spec_decode_children(children@) is None);
                }
                return Err(e);
            },
        }
        i = i + 1;
    }
    proof {
        assert(children@.skip(children@.len() as int) =~= Seq::<Json>::empty());
        assert(posts_view(posts@) + Seq::<PostV>::empty() =~= posts_view(posts@));
    }
    let after = match json_get(data, "after") {
        None => None,
        Some(Json::Null) => None,
        Some(Json::Str(t)) => Some(t.clone()),
        Some(_) => {
            return Err(FetchError::Decode);
        },
    };
    Ok((posts, after))
}

/// The display name of one subscription child: its `data.display_name`.
pub open spec fn spec_child_name(c: Json) -> Option<Seq<char>> {
    match spec_get(c, "data"@) {
        Some(d) => spec_str_field(d, "display_name"@),
        None => None,
    }
}

/// Every child's display name, in listing order.
pub open spec fn spec_decode_names(cs: Seq<Json>) -> Option<Seq<Seq<char>>>
    decreases cs.len(),
{
    if cs.len() == 0 {
        Some(Seq::empty())
    } else {
        match (spec_child_name(cs[0]), spec_decode_names(cs.drop_first())) {
            (Some(n), Some(rest)) => Some(seq![n] + rest),
            _ => None,
        }
    }
}

/// What a subscription-list body denotes: the subreddits' display names in
/// API order; `None` exactly when the body does not match the shape.
pub open spec fn spec_decode_subscriptions(doc: Option<Json>) -> Option<Seq<Seq<char>>> {
    match doc {
        None => None,
        Some(root) => match spec_get(root, "data"@) {
            Some(data) => match spec_get(data, "children"@) {
                Some(Json::Array(cs)) => spec_decode_names(cs@),
                _ => None,
            },
            None => None,
        },
    }
}

/// Decodes a subscription-list response body into the subreddits' display
/// names, in API order: exactly what the body denotes, or the decode error
/// exactly when it denotes nothing.
pub fn decode_subscriptions(body: &str) -> (r: Result<Vec<String>, FetchError>)
    ensures
        r matches Ok(names) ==> spec_decode_subscriptions(json_doc_of(body@)) == Some(
            strings_view(names@),
        ),
        r is Err ==> r == Err::<Vec<String>, FetchError>(FetchError::Decode)
            && spec_decode_subscriptions(json_doc_of(body@)) is None,
{
    let root = match parse_json_tree(body) {
        Some(d) => d,
        None => {
            return Err(FetchError::Decode);
        },
    };
    let data = match json_get(&root, "data") {
        Some(d) => d,
        None => {
            return Err(FetchError::Decode);
        },
    };
    let children = match json_get(data, "children") {
        Some(Json::Array(cs)) => cs,
        _ => {
            return Err(FetchError::Decode);
        },
    };
    let mut names: Vec<String> = Vec::new();
    let mut i: usize = 0;
    proof {
        assert(children@.skip(0) =~= children@);
        assert(strings_view(names@) =~= Seq::<Seq<char>>::empty());
    }
    while i < children.len()
        invariant
            i <= children@.len(),
            json_doc_of(body@) == Some(root),
            spec_get(root, "data"@) == Some(*data),
            spec_get(*data, "children"@) == Some(Json::Array(*children)),
            match spec_decode_names(children@.skip(i as int)) {
                Some(rest) => spec_decode_names(children@) == Some(strings_view(names@) + rest),
                None => spec_decode_names(children@) is None,
            },
        decreases children@.len() - i,
    {
        let ghost rest_seq = children@.skip(i as int);
        proof {
            assert(rest_seq[0] == children@[i as int]);
            assert(rest_seq.drop_first() =~= children@.skip(i + 1));
        }
        let child_data = match json_get(&children[i], "data") {
            Some(d) => d,
            None => {
                proof {
                    assert(spec_child_name(rest_seq[0]) is None);
                    assert(spec_decode_names(rest_seq) is None);
                    assert(spec_decode_names(children@) is None);
                }
                return Err(FetchError::Decode);
            },
        };
        match json_str_field(child_data, "display_name") {
            Some(n) => {
                let ghost old_names = names@;
                names.push(n);
                proof {
                    assert(strings_view(names@) =~= strings_view(old_names)
                        + seq![names@.last()@]);
                    if spec_decode_names(children@.skip(i + 1)) is Some {
                        let rest2 = spec_decode_names(children@.skip(i + 1))->0;
                        assert(spec_decode_names(rest_seq) == Some(
                            seq![names@.last()@] + rest2,
                        ));
                        assert(strings_view(old_names) + (seq![names@.last()@] + rest2)
                            =~= strings_view(names@) + rest2);
                    }
                }
            },
            None => {
                proof {
                    assert(spec_child_name(rest_seq[0]) is None);
                    assert(spec_decode_names(rest_seq) is None);
                    assert(spec_decode_names(children@) is None);
                }
                return Err(FetchError::Decode);
            },
        }
        i = i + 1;
    }
    proof {
        assert(children@.skip(children@.len() as int) =~= Seq::<Json>::empty());
        assert(strings_view(names@) + Seq::<Seq<char>>::empty() =~= strings_view(names@));
    }
    Ok(names)
}

} // verus!
