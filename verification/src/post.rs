use vstd::prelude::*;

verus! {

use vstd::string::{StrSliceExecFns, StringSliceAdditionalSpecFns};

/// One rendition of a preview image: its URL and its height in pixels.
#[derive(Debug)]
pub struct ImageSource {
    pub url: String,
    pub height: u32,
}

/// A preview image: the full-size source plus the ordered list of smaller
/// renditions the provider offers.
#[derive(Debug)]
pub struct Image {
    pub source: ImageSource,
    pub resolutions: Vec<ImageSource>,
}

/// The optional preview attached to a post.
#[derive(Debug)]
pub struct Preview {
    pub images: Vec<Image>,
}

/// One post of a listing, immutable once fetched.
#[derive(Debug)]
pub struct Post {
    pub title: String,
    pub author: String,
    pub subreddit: String,
    pub score: i32,
    pub url: String,
    pub thumbnail: String,
    pub preview: Option<Preview>,
}

/// The abstract value of an `ImageSource`.
pub ghost struct ImageSourceV {
    pub url: Seq<char>,
    pub height: u32,
}

impl View for ImageSource {
    type V = ImageSourceV;

    open spec fn view(&self) -> ImageSourceV {
        ImageSourceV { url: self.url@, height: self.height }
    }
}

/// The abstract value of an `Image`.
pub ghost struct ImageV {
    pub source: ImageSourceV,
    pub resolutions: Seq<ImageSourceV>,
}

/// The abstract values of a sequence of renditions.
pub open spec fn sources_view(s: Seq<ImageSource>) -> Seq<ImageSourceV> {
    s.map_values(|x: ImageSource| x@)
}

impl View for Image {
    type V = ImageV;

    open spec fn view(&self) -> ImageV {
        ImageV { source: self.source@, resolutions: sources_view(self.resolutions@) }
    }
}

/// The abstract value of a `Preview`.
pub ghost struct PreviewV {
    pub images: Seq<ImageV>,
}

/// The abstract values of a sequence of preview images.
pub open spec fn images_view(s: Seq<Image>) -> Seq<ImageV> {
    s.map_values(|x: Image| x@)
}

impl View for Preview {
    type V = PreviewV;

    open spec fn view(&self) -> PreviewV {
        PreviewV { images: images_view(self.images@) }
    }
}

/// The abstract value of a `Post`.
pub ghost struct PostV {
    pub title: Seq<char>,
    pub author: Seq<char>,
    pub subreddit: Seq<char>,
    pub score: i32,
    pub url: Seq<char>,
    pub thumbnail: Seq<char>,
    pub preview: Option<PreviewV>,
}

impl View for Post {
    type V = PostV;

    open spec fn view(&self) -> PostV {
        PostV {
            title: self.title@,
            author: self.author@,
            subreddit: self.subreddit@,
            score: self.score,
            url: self.url@,
            thumbnail: self.thumbnail@,
            preview: match self.preview {
                Some(pv) => Some(pv@),
                None => None,
            },
        }
    }
}

/// The abstract values of a sequence of posts.
pub open spec fn posts_view(s: Seq<Post>) -> Seq<PostV> {
    s.map_values(|p: Post| p@)
}

/// How far a rendition's height is from the height the renderer wants.
pub open spec fn height_distance(h: u32, target: u32) -> int {
    if h >= target {
        h - target
    } else {
        target - h
    }
}

/// The index of the first rendition whose height is nearest `target`.
pub open spec fn best_index(s: Seq<ImageSource>, target: u32) -> int
    decreases s.len(),
{
    if s.len() <= 1 {
        0
    } else {
        let b = best_index(s.drop_last(), target);
        if height_distance(s.last().height, target) < height_distance(s[b].height, target) {
            s.len() - 1
        } else {
            b
        }
    }
}

pub proof fn lemma_best_index_in_range(s: Seq<ImageSource>, target: u32)
    requires
        s.len() > 0,
    ensures
        0 <= best_index(s, target) < s.len(),
    decreases s.len(),
{
    if s.len() > 1 {
        lemma_best_index_in_range(s.drop_last(), target);
    }
}

/// The chosen rendition is at least as close to the target as every other,
/// and no earlier rendition is as close (ties go to the first).
pub proof fn lemma_best_index_is_nearest(s: Seq<ImageSource>, target: u32)
    requires
        s.len() > 0,
    ensures
        forall|j: int|
            0 <= j < s.len() ==> #[trigger] height_distance(s[j].height, target)
                >= height_distance(s[best_index(s, target)].height, target),
        forall|j: int|
            0 <= j < best_index(s, target) ==> #[trigger] height_distance(s[j].height, target)
                > height_distance(s[best_index(s, target)].height, target),
    decreases s.len(),
{
    lemma_best_index_in_range(s, target);
    if s.len() > 1 {
        lemma_best_index_is_nearest(s.drop_last(), target);
        lemma_best_index_in_range(s.drop_last(), target);
        assert(forall|j: int| 0 <= j < s.len() - 1 ==> s.drop_last()[j] == s[j]);
    }
}

/// Picks the first rendition whose height is nearest `target`.
fn best_resolution_index(resolutions: &Vec<ImageSource>, target: u32) -> (best: usize)
    requires
        resolutions@.len() > 0,
    ensures
        best == best_index(resolutions@, target),
        best < resolutions@.len(),
{
    let mut best: usize = 0;
    let mut i: usize = 1;
    while i < resolutions.len()
        invariant
            resolutions@.len() > 0,
            1 <= i <= resolutions@.len(),
            best == best_index(resolutions@.take(i as int), target),
            best < i,
        decreases resolutions@.len() - i,
    {
        proof {
            lemma_best_index_in_range(resolutions@.take(i as int), target);
            assert(resolutions@.take(i + 1).drop_last() =~= resolutions@.take(i as int));
        }
        let cur = &resolutions[i];
        let b = &resolutions[best];
        let cur_d: u32 = if cur.height >= target {
            cur.height - target
        } else {
            target - cur.height
        };
        let best_d: u32 = if b.height >= target {
            b.height - target
        } else {
            target - b.height
        };
        if cur_d < best_d {
            best = i;
        }
        i = i + 1;
    }
    proof {
        assert(resolutions@.take(resolutions@.len() as int) =~= resolutions@);
    }
    best
}

/// The URL the renderer should display for `p`: the rendition of the first
/// preview image nearest `target`, falling back to the full-size source when
/// no smaller renditions exist, and to the thumbnail when the post carries no
/// preview at all.
pub open spec fn display_image_url_spec(p: Post, target: u32) -> Seq<char> {
    match p.preview {
        Some(pv) => {
            if pv.images@.len() == 0 {
                p.thumbnail@
            } else {
                let img = pv.images@[0];
                if img.resolutions@.len() > 0 {
                    img.resolutions@[best_index(img.resolutions@, target)].url@
                } else {
                    img.source.url@
                }
            }
        },
        None => p.thumbnail@,
    }
}

/// Chooses which image URL to show for a post.
pub fn display_image_url(post: &Post, target: u32) -> (r: String)
    ensures
        r@ == display_image_url_spec(*post, target),
{
    match &post.preview {
        Some(pv) => {
            if pv.images.len() == 0 {
                post.thumbnail.clone()
            } else {
                let img = &pv.images[0];
                if img.resolutions.len() > 0 {
                    let i = best_resolution_index(&img.resolutions, target);
                    img.resolutions[i].url.clone()
                } else {
                    img.source.url.clone()
                }
            }
        },
        None => post.thumbnail.clone(),
    }
}

/// The five bytes of the escaped ampersand `&amp;`.
pub open spec fn amp_entity() -> Seq<u8> {
    seq![38u8, 97u8, 109u8, 112u8, 59u8]
}

/// `s` with every escaped ampersand replaced by a bare one, leftmost first:
/// the provider escapes ampersands inside image URLs, and the renderer must
/// undo that before requesting them.
pub open spec fn spec_unescape_amp(s: Seq<u8>) -> Seq<u8>
    decreases s.len(),
{
    if s.len() == 0 {
        Seq::empty()
    } else if s.len() >= 5 && s.subrange(0, 5) == amp_entity() {
        seq![38u8] + spec_unescape_amp(s.skip(5))
    } else {
        seq![s[0]] + spec_unescape_amp(s.skip(1))
    }
}

/// Replaces every `&amp;` in `s` by `&`.
pub fn unescape_amp(s: &Vec<u8>) -> (r: Vec<u8>)
    ensures
        r@ == spec_unescape_amp(s@),
{
    let mut r: Vec<u8> = Vec::new();
    let mut i: usize = 0;
    proof {
        assert(s@.skip(0) =~= s@);
        assert(r@ + spec_unescape_amp(s@) =~= spec_unescape_amp(s@));
    }
    while i < s.len()
        invariant
            i <= s@.len(),
            spec_unescape_amp(s@) == r@ + spec_unescape_amp(s@.skip(i as int)),
        decreases s@.len() - i,
    {
        let ghost rest = s@.skip(i as int);
        if s.len() - i >= 5 && s[i] == 38 && s[i + 1] == 97 && s[i + 2] == 109 && s[i + 3] == 112
            && s[i + 4] == 59 {
            r.push(38);
            proof {
                assert(rest.subrange(0, 5) =~= amp_entity());
                assert(rest.skip(5) =~= s@.skip(i + 5));
                assert(seq![38u8] + spec_unescape_amp(s@.skip(i + 5)) == spec_unescape_amp(rest));
            }
            i = i + 5;
        } else {
            r.push(s[i]);
            proof {
                if rest.len() >= 5 && rest.subrange(0, 5) == amp_entity() {
                    assert(rest.subrange(0, 5)[0] == s@[i as int]);
                    assert(rest.subrange(0, 5)[1] == s@[i + 1]);
                    assert(rest.subrange(0, 5)[2] == s@[i + 2]);
                    assert(rest.subrange(0, 5)[3] == s@[i + 3]);
                    assert(rest.subrange(0, 5)[4] == s@[i + 4]);
                    assert(false);
                }
                assert(rest[0] == s@[i as int]);
                assert(rest.skip(1) =~= s@.skip(i + 1));
                assert(seq![s@[i as int]] + spec_unescape_amp(s@.skip(i + 1))
                    == spec_unescape_amp(rest));
            }
            i = i + 1;
        }
    }
    proof {
        assert(s@.skip(s@.len() as int) =~= Seq::<u8>::empty());
        assert(r@ =~= spec_unescape_amp(s@));
    }
    r
}

/// Relies on String::from_utf8: `Some` exactly when `bytes` is valid UTF-8,
/// and then the string is the one those bytes encode.
#[verifier::external_body]
fn bytes_to_string(bytes: Vec<u8>) -> (r: Option<String>)
    ensures
        r is Some <==> vstd::utf8::valid_utf8(bytes@),
        r matches Some(t) ==> vstd::utf8::encode_utf8(t@) == bytes@,
{
    String::from_utf8(bytes).ok()
}

/// Replaces every `&amp;` in a URL by `&`. The result is `Some` exactly
/// when the unescaped bytes are well-formed, which unescaping a well-formed
/// string never fails to produce.
pub fn unescape_amp_str(s: &str) -> (r: Option<String>)
    ensures
        r is Some <==> vstd::utf8::valid_utf8(spec_unescape_amp(s.spec_bytes())),
        r matches Some(t) ==> vstd::utf8::encode_utf8(t@) == spec_unescape_amp(s.spec_bytes()),
{
    let bytes = s.as_bytes_vec();
    let unescaped = unescape_amp(&bytes);
    bytes_to_string(unescaped)
}

/// The UTF-8 encoding of `s` begins with the four bytes of `http`.
pub open spec fn spec_starts_with_http(s: Seq<u8>) -> bool {
    s.len() >= 4 && s[0] == 104u8 && s[1] == 116u8 && s[2] == 116u8 && s[3] == 112u8
}

/// True when `s` begins with an HTTP or HTTPS scheme; the renderer shows an
/// image widget only for such URLs.
pub fn starts_with_http(s: &str) -> (r: bool)
    ensures
        r == spec_starts_with_http(s.spec_bytes()),
{
    let b = s.as_bytes();
    if b.len() < 4 {
        return false;
    }
    b[0] == 104u8 && b[1] == 116u8 && b[2] == 116u8 && b[3] == 112u8
}

} // verus!
