//! The pointer cursor of the Wayland backend: choosing the image of an animated
//! cursor for a size and a point in time.
use vstd::prelude::*;
use vstd::string::StringSliceAdditionalSpecFns;

verus! {

/// An image of a cursor theme (`xcursor`'s `Image`).
#[derive(Debug)]
pub struct CursorImage {
    /// The nominal size of the image.
    pub size: u32,
    pub width: u32,
    pub height: u32,
    pub xhot: u32,
    pub yhot: u32,
    /// How long the image shows, in milliseconds.
    pub delay: u32,
    pub pixels_rgba: Vec<u8>,
    pub pixels_argb: Vec<u8>,
}

/// What an image holds, its pixels as sequences.
pub struct CursorImageView {
    pub size: u32,
    pub width: u32,
    pub height: u32,
    pub xhot: u32,
    pub yhot: u32,
    pub delay: u32,
    pub pixels_rgba: Seq<u8>,
    pub pixels_argb: Seq<u8>,
}

impl View for CursorImage {
    type V = CursorImageView;

    open spec fn view(&self) -> CursorImageView {
        CursorImageView {
            size: self.size,
            width: self.width,
            height: self.height,
            xhot: self.xhot,
            yhot: self.yhot,
            delay: self.delay,
            pixels_rgba: self.pixels_rgba@,
            pixels_argb: self.pixels_argb@,
        }
    }
}

/// The images that an Xcursor file holds, in the order of the file, or none
/// where the bytes are not such a file.
pub uninterp spec fn xcursor_images(bytes: Seq<u8>) -> Option<Seq<CursorImageView>>;

/// `xcursor::parser::parse_xcursor`: reads an Xcursor file's images from its
/// bytes. What it reads is named (`xcursor_images`), not stated; each image is
/// copied field by field.
#[verifier::external_body]
fn parse_xcursor_bytes(bytes: &[u8]) -> (r: Option<Vec<CursorImage>>)
    ensures
        match r {
            None => xcursor_images(bytes@) is None,
            Some(v) => xcursor_images(bytes@) == Some(v@.map_values(|i: CursorImage| i@)),
        },
{
    xcursor::parser::parse_xcursor(bytes).map(|images| {
        images.into_iter().map(|i| CursorImage {
            size: i.size, width: i.width, height: i.height, xhot: i.xhot, yhot: i.yhot, delay: i.delay,
            pixels_rgba: i.pixels_rgba, pixels_argb: i.pixels_argb,
        }).collect()
    })
}

/// Whether two images are the same (pixels compared by value).
pub open spec fn same_image(a: CursorImage, b: CursorImage) -> bool {
    &&& a.size == b.size
    &&& a.width == b.width
    &&& a.height == b.height
    &&& a.xhot == b.xhot
    &&& a.yhot == b.yhot
    &&& a.delay == b.delay
    &&& a.pixels_rgba@ == b.pixels_rgba@
    &&& a.pixels_argb@ == b.pixels_argb@
}

fn bytes_equal(a: &Vec<u8>, b: &Vec<u8>) -> (r: bool)
    ensures
        r == (a@ == b@),
{
    if a.len() != b.len() {
        return false;
    }
    let mut i: usize = 0;
    while i < a.len()
        invariant
            a@.len() == b@.len(),
            i <= a@.len(),
            forall|j: int| 0 <= j < i ==> a@[j] == b@[j],
        decreases a@.len() - i,
    {
        if a[i] != b[i] {
            return false;
        }
        i = i + 1;
    }
    assert(a@ =~= b@);
    true
}

/// Whether two images are the same: every field, pixels compared by value.
pub fn images_equal(a: &CursorImage, b: &CursorImage) -> (r: bool)
    ensures
        r == same_image(*a, *b),
{
    a.size == b.size && a.width == b.width && a.height == b.height && a.xhot == b.xhot && a.yhot == b.yhot
        && a.delay == b.delay && bytes_equal(&a.pixels_rgba, &b.pixels_rgba) && bytes_equal(
        &a.pixels_argb,
        &b.pixels_argb,
    )
}

/// The first image of a cache of uploaded images that is the same as a frame,
/// if any (the renderer uploads a frame only once).
pub fn find_cached_image(cache: &[CursorImage], frame: &CursorImage) -> (r: Option<usize>)
    ensures
        match r {
            Some(i) => i < cache@.len() && same_image(cache@[i as int], *frame) && forall|j: int|
                0 <= j < i ==> !same_image(#[trigger] cache@[j], *frame),
            None => forall|j: int| 0 <= j < cache@.len() ==> !same_image(#[trigger] cache@[j], *frame),
        },
{
    let mut i: usize = 0;
    while i < cache.len()
        invariant
            i <= cache@.len(),
            forall|j: int| 0 <= j < i ==> !same_image(#[trigger] cache@[j], *frame),
        decreases cache@.len() - i,
    {
        if images_equal(&cache[i], frame) {
            return Some(i);
        }
        i = i + 1;
    }
    None
}

fn copy_bytes(v: &Vec<u8>) -> (r: Vec<u8>)
    ensures
        r@ == v@,
{
    let mut r: Vec<u8> = Vec::new();
    r.extend_from_slice(v.as_slice());
    assert(r@ =~= v@);
    r
}

/// A copy of an image.
pub fn copy_image(img: &CursorImage) -> (r: CursorImage)
    ensures
        same_image(r, *img),
{
    CursorImage {
        size: img.size,
        width: img.width,
        height: img.height,
        xhot: img.xhot,
        yhot: img.yhot,
        delay: img.delay,
        pixels_rgba: copy_bytes(&img.pixels_rgba),
        pixels_argb: copy_bytes(&img.pixels_argb),
    }
}

/// How far an image's nominal size is from the wanted one (both taken as `i32`).
pub open spec fn size_distance(size: u32, img: CursorImage) -> int {
    let d = (size as i32) - (img.size as i32);
    if d < 0 { -d } else { d }
}

/// Whether the distances of all images can be computed in 32 bits.
pub open spec fn distances_fit(size: u32, images: Seq<CursorImage>) -> bool {
    forall|i: int|
        0 <= i < images.len() ==> i32::MIN < (size as i32) - (#[trigger] images[i].size as i32) <= i32::MAX
}

/// Whether `k` is the first of the images nearest to the size.
pub open spec fn is_nearest(size: u32, images: Seq<CursorImage>, k: int) -> bool {
    &&& 0 <= k < images.len()
    &&& forall|j: int| 0 <= j < images.len() ==> size_distance(size, images[k]) <= size_distance(size, #[trigger] images[j])
    &&& forall|j: int| 0 <= j < k ==> size_distance(size, images[k]) < size_distance(size, #[trigger] images[j])
}

/// The first image nearest to a size.
pub fn nearest_index(size: u32, images: &[CursorImage]) -> (k: usize)
    requires
        images@.len() > 0,
        distances_fit(size, images@),
    ensures
        is_nearest(size, images@, k as int),
{
    let mut best: usize = 0;
    let d0 = size as i32 - images[0].size as i32;
    let mut best_d: i32 = if d0 < 0 { -d0 } else { d0 };
    let mut i: usize = 1;
    while i < images.len()
        invariant
            1 <= i <= images@.len(),
            distances_fit(size, images@),
            best < i,
            best_d == size_distance(size, images@[best as int]),
            forall|j: int| 0 <= j < i ==> best_d <= size_distance(size, #[trigger] images@[j]),
            forall|j: int| 0 <= j < best ==> best_d < size_distance(size, #[trigger] images@[j]),
        decreases images@.len() - i,
    {
        assert(i32::MIN < (size as i32) - (images@[i as int].size as i32));
        let d = size as i32 - images[i].size as i32;
        let a = if d < 0 { -d } else { d };
        if a < best_d {
            best = i;
            best_d = a;
        }
        i = i + 1;
    }
    best
}

/// Two first-nearest images are the same one.
pub proof fn lemma_nearest_unique(size: u32, images: Seq<CursorImage>, a: int, b: int)
    requires
        is_nearest(size, images, a),
        is_nearest(size, images, b),
    ensures
        a == b,
{
    if a < b {
        assert(size_distance(size, images[b]) < size_distance(size, images[a]));
    } else if b < a {
        assert(size_distance(size, images[a]) < size_distance(size, images[b]));
    }
}

/// The first image nearest to a size.
pub open spec fn nearest(size: u32, images: Seq<CursorImage>) -> int {
    choose|k: int| is_nearest(size, images, k)
}

/// The positions, in order, of the first `n` images that have the given dimensions.
pub open spec fn dims_indices(images: Seq<CursorImage>, w: u32, h: u32, n: int) -> Seq<usize>
    decreases n,
{
    if n <= 0 {
        seq![]
    } else {
        dims_indices(images, w, h, n - 1) + if images[n - 1].width == w && images[n - 1].height == h {
            seq![(n - 1) as usize]
        } else {
            seq![]
        }
    }
}

/// The positions of the images nearest to a size: all those with the dimensions
/// of the first image whose nominal size is nearest.
pub open spec fn nearest_group(size: u32, images: Seq<CursorImage>) -> Seq<usize> {
    let k = nearest(size, images);
    dims_indices(images, images[k].width, images[k].height, images.len() as int)
}

proof fn lemma_dims_indices_bounds(images: Seq<CursorImage>, w: u32, h: u32, n: int)
    requires
        0 <= n <= images.len(),
    ensures
        forall|i: int| 0 <= i < dims_indices(images, w, h, n).len() ==> (#[trigger] dims_indices(images, w, h, n)[i]) < n,
    decreases n,
{
    if n > 0 {
        lemma_dims_indices_bounds(images, w, h, n - 1);
        let prev = dims_indices(images, w, h, n - 1);
        let cur = dims_indices(images, w, h, n);
        assert forall|i: int| 0 <= i < cur.len() implies (#[trigger] cur[i]) < n by {
            if i < prev.len() {
                assert(cur[i] == prev[i]);
            } else {
                assert(cur[i] == (n - 1) as usize);
            }
        }
    }
}

/// The images nearest to a size, by position, in order.
pub fn nearest_images(size: u32, images: &[CursorImage]) -> (r: Vec<usize>)
    requires
        images@.len() > 0,
        distances_fit(size, images@),
    ensures
        r@ == nearest_group(size, images@),
        r@.len() > 0,
        forall|i: int| 0 <= i < r@.len() ==> (#[trigger] r@[i]) < images@.len(),
{
    let k = nearest_index(size, images);
    proof {
        lemma_nearest_unique(size, images@, k as int, nearest(size, images@));
    }
    let w = images[k].width;
    let h = images[k].height;
    let mut r: Vec<usize> = Vec::new();
    let mut i: usize = 0;
    while i < images.len()
        invariant
            i <= images@.len(),
            k < images@.len(),
            w == images@[k as int].width,
            h == images@[k as int].height,
            r@ == dims_indices(images@, w, h, i as int),
            k < i ==> r@.len() > 0,
        decreases images@.len() - i,
    {
        if images[i].width == w && images[i].height == h {
            r.push(i);
        }
        assert(r@ =~= dims_indices(images@, w, h, i + 1));
        i = i + 1;
    }
    proof {
        lemma_dims_indices_bounds(images@, w, h, images@.len() as int);
    }
    r
}

/// The sum of the delays of some images.
pub open spec fn delay_sum(images: Seq<CursorImage>, idx: Seq<usize>) -> int
    decreases idx.len(),
{
    if idx.len() == 0 {
        0
    } else {
        delay_sum(images, idx.drop_last()) + images[idx.last() as int].delay
    }
}

/// Whether the frame at position `p` of an animation shows at time `t` (within one
/// round of the animation): the delays before it sum to at most `t`, with its own
/// to more.
pub open spec fn frame_at(images: Seq<CursorImage>, idx: Seq<usize>, p: int, t: int) -> bool {
    &&& 0 <= p < idx.len()
    &&& delay_sum(images, idx.take(p)) <= t < delay_sum(images, idx.take(p + 1))
}

/// Whether an animation can be played: the images nearest to the size can be
/// told apart (their distances fit in 32 bits), and their delays sum to a
/// positive 32-bit number.
pub open spec fn animation_ok(size: u32, images: Seq<CursorImage>) -> bool {
    &&& images.len() > 0
    &&& distances_fit(size, images)
    &&& 0 < delay_sum(images, nearest_group(size, images)) <= u32::MAX
}

proof fn lemma_delay_sum_monotone(images: Seq<CursorImage>, idx: Seq<usize>, a: int, b: int)
    requires
        0 <= a <= b <= idx.len(),
    ensures
        delay_sum(images, idx.take(a)) <= delay_sum(images, idx.take(b)),
    decreases b - a,
{
    if a < b {
        lemma_delay_sum_monotone(images, idx, a, b - 1);
        assert(idx.take(b).drop_last() =~= idx.take(b - 1));
    }
}

/// The animation loops: a time and the same time any number of whole rounds
/// later fall on the same point of the round, so `frame` shows the same image.
pub proof fn lemma_frame_periodic(size: u32, images: Seq<CursorImage>, t: nat, rounds: nat)
    requires
        animation_ok(size, images),
    ensures
        (t + rounds * delay_sum(images, nearest_group(size, images))) % delay_sum(
            images,
            nearest_group(size, images),
        ) == (t as int) % delay_sum(images, nearest_group(size, images)),
{
    let d = delay_sum(images, nearest_group(size, images));
    vstd::arithmetic::div_mod::lemma_mod_multiples_vanish(rounds as int, t as int, d);
    assert(rounds * d == d * rounds) by (nonlinear_arith);
}

/// Whether `r` is the image that an animated cursor shows at time `t`: among
/// the images nearest to the size, the one whose place in the round holds `t`
/// modulo the length of a round.
pub open spec fn shows_at(size: u32, images: Seq<CursorImage>, t: int, r: CursorImage) -> bool {
    let g = nearest_group(size, images);
    exists|p: int| frame_at(images, g, p, t % delay_sum(images, g)) && same_image(r, images[#[trigger] g[p] as int])
}

/// At most one frame shows at a time within a round.
proof fn lemma_frame_at_unique(images: Seq<CursorImage>, idx: Seq<usize>, p: int, q: int, t: int)
    requires
        frame_at(images, idx, p, t),
        frame_at(images, idx, q, t),
    ensures
        p == q,
{
    if p < q {
        lemma_delay_sum_monotone(images, idx, p + 1, q);
    } else if q < p {
        lemma_delay_sum_monotone(images, idx, q + 1, p);
    }
}

/// The animation repeats: at a time and at the same time any number of whole
/// rounds later the cursor shows the same image.
pub proof fn lemma_animation_repeats(
    size: u32,
    images: Seq<CursorImage>,
    t: nat,
    rounds: nat,
    r1: CursorImage,
    r2: CursorImage,
)
    requires
        animation_ok(size, images),
        shows_at(size, images, t as int, r1),
        shows_at(size, images, t + rounds * delay_sum(images, nearest_group(size, images)), r2),
    ensures
        same_image(r1, r2),
{
    let g = nearest_group(size, images);
    let d = delay_sum(images, g);
    lemma_frame_periodic(size, images, t, rounds);
    let p = choose|p: int| frame_at(images, g, p, (t as int) % d) && same_image(r1, images[#[trigger] g[p] as int]);
    let q = choose|q: int|
        frame_at(images, g, q, (t + rounds * d) % d) && same_image(r2, images[#[trigger] g[q] as int]);
    lemma_frame_at_unique(images, g, p, q, (t as int) % d);
}

/// The image of an animated cursor at a time: among the images nearest
/// to the size, the one that shows at `millis` modulo the length of the animation.
pub fn frame(millis: u32, size: u32, images: &[CursorImage]) -> (r: CursorImage)
    requires
        animation_ok(size, images@),
    ensures
        shows_at(size, images@, millis as int, r),
{
    let group = nearest_images(size, images);
    let ghost g = group@;
    let mut total: u32 = 0;
    let mut i: usize = 0;
    while i < group.len()
        invariant
            i <= g.len(),
            group@ == g,
            g == nearest_group(size, images@),
            animation_ok(size, images@),
            forall|a: int| 0 <= a < g.len() ==> (#[trigger] g[a]) < images@.len(),
            total == delay_sum(images@, g.take(i as int)),
        decreases g.len() - i,
    {
        proof {
            assert(g.take(i + 1).drop_last() =~= g.take(i as int));
            lemma_delay_sum_monotone(images@, g, i + 1, g.len() as int);
            assert(g.take(g.len() as int) =~= g);
        }
        total = total + images[group[i]].delay;
        i = i + 1;
    }
    assert(g.take(g.len() as int) =~= g);
    let t = millis % total;
    let mut rest = t;
    let mut p: usize = 0;
    while p < group.len()
        invariant
            p <= g.len(),
            group@ == g,
            forall|a: int| 0 <= a < g.len() ==> (#[trigger] g[a]) < images@.len(),
            total == delay_sum(images@, g),
            t < total,
            t == millis % total,
            g == nearest_group(size, images@),
            rest + delay_sum(images@, g.take(p as int)) == t,
        decreases g.len() - p,
    {
        assert(g.take(p + 1).drop_last() =~= g.take(p as int));
        let img = &images[group[p]];
        if rest < img.delay {
            let r = copy_image(img);
            assert(frame_at(images@, g, p as int, t as int));
            assert(t as int == millis as int % delay_sum(images@, nearest_group(size, images@)));
            assert(same_image(r, images@[nearest_group(size, images@)[p as int] as int]));
            return r;
        }
        rest = rest - img.delay;
        p = p + 1;
    }
    assert(g.take(g.len() as int) =~= g);
    assert(false);
    copy_image(&images[0])
}

/// The value of a string of ASCII decimal digits, read from the left.
pub open spec fn decimal_value(b: Seq<u8>) -> int
    decreases b.len(),
{
    if b.len() == 0 {
        0
    } else {
        10 * decimal_value(b.drop_last()) + (b.last() - 0x30)
    }
}

/// Whether every byte is an ASCII decimal digit.
pub open spec fn all_decimal(b: Seq<u8>) -> bool {
    forall|i: int| 0 <= i < b.len() ==> 0x30 <= #[trigger] b[i] <= 0x39
}

/// The `u32` that a string spells in base 10, if any: an optional `+`, then
/// at least one digit and nothing else, with a value that fits in 32 bits.
pub open spec fn decimal_u32(b: Seq<u8>) -> Option<u32> {
    let digits = if b.len() > 0 && b[0] == 0x2b { b.drop_first() } else { b };
    if digits.len() > 0 && all_decimal(digits) && decimal_value(digits) <= u32::MAX {
        Some(decimal_value(digits) as u32)
    } else {
        None
    }
}

/// `str::parse::<u32>`, which reads base 10 as `u32::from_str_radix` does. Its
/// documentation asks for an optional `+` followed by one or more digits and
/// refuses a value that does not fit; so the contract claims `Ok` with the
/// value exactly where `decimal_u32` gives one, and an error otherwise.
#[verifier::external_body]
fn parse_u32(s: &str) -> (r: Result<u32, core::num::ParseIntError>)
    ensures
        match r {
            Ok(v) => decimal_u32(s.spec_bytes()) == Some(v),
            Err(_) => decimal_u32(s.spec_bytes()) is None,
        },
{
    s.parse::<u32>()
}

/// The size of the cursor from the value of `XCURSOR_SIZE`, where it is set:
/// its number where it reads as one, else 24.
pub fn cursor_size(value: Option<&str>) -> (r: u32)
    ensures
        r == match value {
            Some(s) => match decimal_u32(s.spec_bytes()) {
                Some(n) => n,
                None => DEFAULT_CURSOR_SIZE,
            },
            None => DEFAULT_CURSOR_SIZE,
        },
{
    match value {
        Some(s) => match parse_u32(s) {
            Ok(n) => n,
            Err(_) => DEFAULT_CURSOR_SIZE,
        },
        None => DEFAULT_CURSOR_SIZE,
    }
}

/// The cursor theme from the value of `XCURSOR_THEME`, where it is set, else
/// the theme `default`.
pub fn cursor_theme_name(value: Option<&str>) -> (r: String)
    ensures
        r@ == match value {
            Some(s) => s@,
            None => "default"@,
        },
{
    match value {
        Some(s) => s.to_owned(),
        None => "default".to_owned(),
    }
}

/// A cursor: its images and its nominal size.
#[derive(Debug)]
pub struct Cursor {
    icons: Vec<CursorImage>,
    size: u32,
}

/// The size of a cursor where the environment sets none.
pub const DEFAULT_CURSOR_SIZE: u32 = 24;

/// The image that stands in for a missing cursor theme.
pub open spec fn is_fallback_image(img: CursorImage, pixels: Seq<u8>) -> bool {
    &&& img.size == 32
    &&& img.width == 64
    &&& img.height == 64
    &&& img.xhot == 1
    &&& img.yhot == 1
    &&& img.delay == 1
    &&& img.pixels_rgba@ == pixels
    &&& img.pixels_argb@.len() == 0
}

impl Cursor {
    pub closed spec fn spec_icons(&self) -> Seq<CursorImage> {
        self.icons@
    }

    pub closed spec fn spec_size(&self) -> u32 {
        self.size
    }

    /// The cursor from what was loaded: the theme's images, or where
    /// there are none a single still fallback image; the size from the
    /// environment, or 24.
    pub fn load(icons: Option<Vec<CursorImage>>, size: Option<u32>, fallback_pixels: Vec<u8>) -> (r: Cursor)
        ensures
            match icons {
                Some(v) => r.spec_icons() == v@,
                None => r.spec_icons().len() == 1 && is_fallback_image(r.spec_icons()[0], fallback_pixels@),
            },
            r.spec_size() == match size { Some(s) => s, None => DEFAULT_CURSOR_SIZE },
    {
        let icons = match icons {
            Some(v) => v,
            None => vec![CursorImage {
                size: 32,
                width: 64,
                height: 64,
                xhot: 1,
                yhot: 1,
                delay: 1,
                pixels_rgba: fallback_pixels,
                pixels_argb: Vec::new(),
            }],
        };
        let size = match size {
            Some(s) => s,
            None => DEFAULT_CURSOR_SIZE,
        };
        Cursor { icons, size }
    }

    /// The cursor from the bytes of its theme's file, where it could be read:
    /// the images that the file holds, or the
    /// fallback image where there is no file or it does not parse; the size
    /// from the environment, or 24.
    pub fn cursor_from_file(bytes: Option<&[u8]>, size: Option<u32>, fallback: Vec<u8>) -> (r: Cursor)
        ensures
            match bytes {
                Some(b) if xcursor_images(b@) is Some => r.spec_icons().map_values(|i: CursorImage| i@)
                    == xcursor_images(b@)->Some_0,
                _ => r.spec_icons().len() == 1 && is_fallback_image(r.spec_icons()[0], fallback@),
            },
            r.spec_size() == match size { Some(s) => s, None => DEFAULT_CURSOR_SIZE },
    {
        let icons = match bytes {
            Some(b) => parse_xcursor_bytes(b),
            None => None,
        };
        Cursor::load(icons, size, fallback)
    }

    /// The image to show at a scale after `millis` milliseconds (the time taken
    /// modulo 2^32).
    pub fn get_image(&self, scale: u32, millis: u128) -> (r: CursorImage)
        requires
            self.spec_size() * scale <= u32::MAX,
            animation_ok((self.spec_size() * scale) as u32, self.spec_icons()),
        ensures
            shows_at((self.spec_size() * scale) as u32, self.spec_icons(), (millis as u32) as int, r),
    {
        let size = self.size * scale;
        frame(millis as u32, size, self.icons.as_slice())
    }
}

} // verus!
