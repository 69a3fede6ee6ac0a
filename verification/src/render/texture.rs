use vstd::prelude::*;
use vstd::set_lib::{lemma_int_range, set_int_range};

use crate::numerics::linalg::Vector2;
use crate::numerics::Float;

verus! {

/// A picture of red, green, blue and opacity at every place, kept by the
/// image crate.
#[verifier::external_body]
pub struct Texture {
    image: image::RgbaImage,
}

/// The colours of a picture: for every place within its width and height,
/// the red, green, blue and opacity there.
pub uninterp spec fn pixels_spec(texture: Texture) -> Map<(u32, u32), (u8, u8, u8, u8)>;

/// The width and the height of a picture.
pub uninterp spec fn size_spec(texture: Texture) -> (u32, u32);

/// `ImageBuffer::from_pixel` of the image crate: a picture of the given
/// width and height with the colour `color` at every place. The outside
/// function panics where the picture has more bytes than a vector can hold,
/// which is `isize::MAX`.
#[verifier::external_body]
fn image_from_pixel(width: u32, height: u32, color: (u8, u8, u8, u8)) -> (r: Texture)
    requires
        4 * width * height <= isize::MAX,
    ensures
        size_spec(r) == (width, height),
        forall|x: u32, y: u32| x < width && y < height ==> #[trigger] pixels_spec(r)[(x, y)] == color,
{
    Texture {
        image: image::RgbaImage::from_pixel(
            width,
            height,
            image::Rgba([color.0, color.1, color.2, color.3]),
        ),
    }
}

/// `ImageBuffer::dimensions` of the image crate: the width and the height.
#[verifier::external_body]
fn image_dimensions(texture: &Texture) -> (r: (u32, u32))
    ensures
        r == size_spec(*texture),
{
    texture.image.dimensions()
}

/// `ImageBuffer::get_pixel` of the image crate: the colour at `(x, y)`. The
/// outside function panics for a place outside the picture.
#[verifier::external_body]
fn image_get_pixel(texture: &Texture, x: u32, y: u32) -> (r: (u8, u8, u8, u8))
    requires
        x < size_spec(*texture).0,
        y < size_spec(*texture).1,
    ensures
        r == pixels_spec(*texture)[(x, y)],
{
    let p = texture.image.get_pixel(x, y);
    (p.0[0], p.0[1], p.0[2], p.0[3])
}

/// `ImageBuffer::put_pixel` of the image crate: the picture has `color` at
/// `(x, y)` from now on, and is else as it was. The outside function panics
/// for a place outside the picture.
#[verifier::external_body]
fn image_put_pixel(texture: &mut Texture, x: u32, y: u32, color: (u8, u8, u8, u8))
    requires
        x < size_spec(*old(texture)).0,
        y < size_spec(*old(texture)).1,
    ensures
        size_spec(*final(texture)) == size_spec(*old(texture)),
        pixels_spec(*final(texture)) == pixels_spec(*old(texture)).insert((x, y), color),
{
    texture.image.put_pixel(x, y, image::Rgba([color.0, color.1, color.2, color.3]));
}

/// `ImageBuffer::as_raw` of the image crate, copied: the bytes of the
/// picture, row by row, four for every place.
#[verifier::external_body]
fn image_to_raw(texture: &Texture) -> (r: Vec<u8>)
    ensures
        r@.len() == 4 * size_spec(*texture).0 * size_spec(*texture).1,
        forall|x: u32, y: u32|
            x < size_spec(*texture).0 && y < size_spec(*texture).1 ==> {
                let at = 4 * (y * size_spec(*texture).0 + x);
                #[trigger] pixels_spec(*texture)[(x, y)] == (
                    r@[at],
                    r@[at + 1],
                    r@[at + 2],
                    r@[at + 3],
                )
            },
{
    texture.image.as_raw().clone()
}

/// Whether `p` is a place of a picture of the size `size`.
pub open spec fn in_picture_spec(size: (u32, u32), p: (int, int)) -> bool {
    0 <= p.0 < size.0 && 0 <= p.1 < size.1
}

/// The place one step from `p` in the direction `k`: to the right, down, to
/// the left, up. Along an axis that wraps, a step over the edge comes in at
/// the other side; along any other it leaves the picture.
pub open spec fn step_spec(size: (u32, u32), wrap_x: bool, wrap_y: bool, p: (int, int), k: int)
    -> (int, int) {
    let x = p.0 + if k == 0 {
        1int
    } else if k == 2 {
        -1int
    } else {
        0int
    };
    let y = p.1 + if k == 1 {
        1int
    } else if k == 3 {
        -1int
    } else {
        0int
    };
    (
        if wrap_x && size.0 > 0 {
            x % (size.0 as int)
        } else {
            x
        },
        if wrap_y && size.1 > 0 {
            y % (size.1 as int)
        } else {
            y
        },
    )
}

/// Whether one step leads from `a` to the place `b` of the picture.
pub open spec fn linked_spec(size: (u32, u32), wrap_x: bool, wrap_y: bool, a: (int, int), b: (int, int))
    -> bool {
    in_picture_spec(size, b) && exists|k: int|
        0 <= k < 4 && #[trigger] step_spec(size, wrap_x, wrap_y, a, k) == b
}

/// The colour that the picture `image` has at `p`.
pub open spec fn colour_spec(image: Texture, p: (int, int)) -> (u8, u8, u8, u8) {
    pixels_spec(image)[(p.0 as u32, p.1 as u32)]
}

/// Whether `path` is a way through places of one colour: each place lies in
/// the picture and has the colour `colour`, and each is one step from the
/// place before it.
pub open spec fn is_way_spec(
    image: Texture,
    wrap_x: bool,
    wrap_y: bool,
    colour: (u8, u8, u8, u8),
    path: Seq<(int, int)>,
) -> bool {
    &&& path.len() >= 1
    &&& forall|i: int|
        0 <= i < path.len() ==> in_picture_spec(size_spec(image), #[trigger] path[i])
            && colour_spec(image, path[i]) == colour
    &&& forall|i: int|
        1 <= i < path.len() ==> linked_spec(
            size_spec(image),
            wrap_x,
            wrap_y,
            path[i - 1],
            #[trigger] path[i],
        )
}

/// Whether `p` belongs to the patch of `start`: a way through places of the
/// colour of `start` leads from `start` to `p`.
pub open spec fn in_patch_spec(
    image: Texture,
    wrap_x: bool,
    wrap_y: bool,
    start: (int, int),
    p: (int, int),
) -> bool {
    exists|path: Seq<(int, int)>|
        {
            &&& #[trigger] is_way_spec(image, wrap_x, wrap_y, colour_spec(image, start), path)
            &&& path[0] == start
            &&& path.last() == p
        }
}

/// Blue, as the patches of a picture of two colours are marked.
pub open spec fn blue_spec() -> (u8, u8, u8, u8) {
    (0u8, 0u8, 255u8, 255u8)
}

/// Red, as the patches of a picture of two colours are marked.
pub open spec fn red_spec() -> (u8, u8, u8, u8) {
    (255u8, 0u8, 0u8, 255u8)
}

impl Texture {
    /// The width and the height.
    pub open spec fn size(&self) -> (u32, u32) {
        size_spec(*self)
    }

    /// A picture of the given size, clear at every place. Its four bytes for
    /// every place must fit a vector.
    pub fn new_rgba(width: u32, height: u32) -> (r: Self)
        requires
            4 * width * height <= isize::MAX,
        ensures
            r.size() == (width, height),
            forall|p: (int, int)|
                in_picture_spec(r.size(), p) ==> #[trigger] colour_spec(r, p) == (
                    0u8,
                    0u8,
                    0u8,
                    0u8,
                ),
    {
        image_from_pixel(width, height, (0, 0, 0, 0))
    }

    /// A picture of the given size, black at every place and nowhere clear.
    /// Its four bytes for every place must fit a vector.
    pub fn new_rgb(width: u32, height: u32) -> (r: Self)
        requires
            4 * width * height <= isize::MAX,
        ensures
            r.size() == (width, height),
            forall|p: (int, int)|
                in_picture_spec(r.size(), p) ==> #[trigger] colour_spec(r, p) == (
                    0u8,
                    0u8,
                    0u8,
                    255u8,
                ),
    {
        image_from_pixel(width, height, (0, 0, 0, 255))
    }

    pub fn width(&self) -> (r: u32)
        ensures
            r == self.size().0,
    {
        image_dimensions(self).0
    }

    pub fn height(&self) -> (r: u32)
        ensures
            r == self.size().1,
    {
        image_dimensions(self).1
    }

    /// The colour at `(x, y)`, a place of the picture.
    pub fn get(&self, x: u32, y: u32) -> (r: (u8, u8, u8, u8))
        requires
            in_picture_spec(self.size(), (x as int, y as int)),
        ensures
            r == colour_spec(*self, (x as int, y as int)),
    {
        image_get_pixel(self, x, y)
    }

    /// Paints the place `(x, y)` of the picture in `color`.
    pub fn put(&mut self, x: u32, y: u32, color: (u8, u8, u8, u8))
        requires
            in_picture_spec(old(self).size(), (x as int, y as int)),
        ensures
            final(self).size() == old(self).size(),
            forall|p: (int, int)|
                in_picture_spec(old(self).size(), p) ==> #[trigger] colour_spec(
                    *final(self),
                    p,
                ) == if p == (x as int, y as int) {
                    color
                } else {
                    colour_spec(*old(self), p)
                },
    {
        image_put_pixel(self, x, y, color);
    }

    /// The bytes of the picture, row by row: red, green, blue and opacity
    /// of every place.
    pub fn to_raw(&self) -> (r: Vec<u8>)
        ensures
            r@.len() == 4 * self.size().0 * self.size().1,
            forall|x: u32, y: u32|
                x < self.size().0 && y < self.size().1 ==> {
                    let at = 4 * (y * self.size().0 + x);
                    #[trigger] pixels_spec(*self)[(x, y)] == (
                        r@[at],
                        r@[at + 1],
                        r@[at + 2],
                        r@[at + 3],
                    )
                },
    {
        image_to_raw(self)
    }

    /// Paints every place in `color`.
    pub fn fill(&mut self, color: (u8, u8, u8, u8))
        ensures
            final(self).size() == old(self).size(),
            forall|p: (int, int)|
                in_picture_spec(old(self).size(), p) ==> #[trigger] colour_spec(
                    *final(self),
                    p,
                ) == color,
    {
        let (width, height) = image_dimensions(self);
        let mut x: u32 = 0;
        while x < width
            invariant
                x <= width,
                self.size() == (width, height),
                self.size() == old(self).size(),
                forall|p: (int, int)|
                    in_picture_spec(self.size(), p) && p.0 < x ==> #[trigger] colour_spec(
                        *self,
                        p,
                    ) == color,
            decreases width - x,
        {
            let mut y: u32 = 0;
            while y < height
                invariant
                    x < width,
                    y <= height,
                    self.size() == (width, height),
                    self.size() == old(self).size(),
                    forall|p: (int, int)|
                        in_picture_spec(self.size(), p) && (p.0 < x || (p.0 == x && p.1 < y))
                            ==> #[trigger] colour_spec(*self, p) == color,
                decreases height - y,
            {
                self.put(x, y, color);
                y += 1;
            }
            x += 1;
        }
    }
}

/// The place of `p` in a row of all places of a picture of the width `width`.
spec fn flat_spec(width: u32, p: (int, int)) -> int {
    p.1 * width + p.0
}

spec fn painted(before: Texture, now: Texture, color: (u8, u8, u8, u8), p: (int, int)) -> bool {
    colour_spec(before, p) != colour_spec(now, p)
}

/// What holds of a place while a patch is being painted: it is as it was,
/// or it belongs to the patch and has the new colour.
spec fn sound(
    before: Texture,
    now: Texture,
    wrap_x: bool,
    wrap_y: bool,
    start: (int, int),
    color: (u8, u8, u8, u8),
    p: (int, int),
) -> bool {
    colour_spec(now, p) == colour_spec(before, p) || (colour_spec(now, p) == color
        && in_patch_spec(before, wrap_x, wrap_y, start, p))
}

spec fn waiting(stack: Seq<(i32, i32)>, i: int, q: (int, int)) -> bool {
    0 <= i < stack.len() && (stack[i].0 as int, stack[i].1 as int) == q
}

spec fn waits(stack: Seq<(i32, i32)>, q: (int, int)) -> bool {
    exists|i: int| #[trigger] waiting(stack, i, q)
}

/// A painted place has each neighbour of the old colour painted too, or
/// waiting to be; but for the directions from `from` on of the place `at`.
spec fn closed_at(
    before: Texture,
    now: Texture,
    stack: Seq<(i32, i32)>,
    wrap_x: bool,
    wrap_y: bool,
    start: (int, int),
    color: (u8, u8, u8, u8),
    p: (int, int),
    k: int,
) -> bool {
    let q = step_spec(size_spec(before), wrap_x, wrap_y, p, k);
    painted(before, now, color, p) && in_picture_spec(size_spec(before), q) && colour_spec(
        before,
        q,
    ) == colour_spec(before, start) ==> painted(before, now, color, q) || waits(stack, q)
}

spec fn fill_inv(
    before: Texture,
    now: Texture,
    stack: Seq<(i32, i32)>,
    unset: Set<int>,
    wrap_x: bool,
    wrap_y: bool,
    start: (int, int),
    color: (u8, u8, u8, u8),
) -> bool {
    let size = size_spec(before);
    &&& size_spec(now) == size
    &&& size.0 <= i32::MAX
    &&& size.1 <= i32::MAX
    &&& in_picture_spec(size, start)
    &&& color != colour_spec(before, start)
    &&& unset.finite()
    &&& painted(before, now, color, start) || waits(stack, start)
    &&& forall|p: (int, int)|
        in_picture_spec(size, p) ==> #[trigger] sound(before, now, wrap_x, wrap_y, start, color, p)
    &&& forall|p: (int, int)|
        in_picture_spec(size, p) && colour_spec(now, p) == colour_spec(before, start)
            ==> unset.contains(#[trigger] flat_spec(size.0, p))
    &&& forall|i: int|
        0 <= i < stack.len() ==> in_picture_spec(
            size,
            ((#[trigger] stack[i]).0 as int, stack[i].1 as int),
        ) && in_patch_spec(before, wrap_x, wrap_y, start, (stack[i].0 as int, stack[i].1 as int))
}

spec fn closure(
    before: Texture,
    now: Texture,
    stack: Seq<(i32, i32)>,
    wrap_x: bool,
    wrap_y: bool,
    start: (int, int),
    color: (u8, u8, u8, u8),
    at: (int, int),
    from: int,
) -> bool {
    forall|p: (int, int), k: int|
        in_picture_spec(size_spec(before), p) && 0 <= k < 4 && !(p == at && k >= from)
            ==> #[trigger] closed_at(before, now, stack, wrap_x, wrap_y, start, color, p, k)
}

/// A way to a place goes on to a neighbour of the old colour.
proof fn lemma_patch_grows(
    before: Texture,
    wrap_x: bool,
    wrap_y: bool,
    start: (int, int),
    p: (int, int),
    q: (int, int),
)
    requires
        in_patch_spec(before, wrap_x, wrap_y, start, p),
        linked_spec(size_spec(before), wrap_x, wrap_y, p, q),
        colour_spec(before, q) == colour_spec(before, start),
    ensures
        in_patch_spec(before, wrap_x, wrap_y, start, q),
{
    let colour = colour_spec(before, start);
    let path_0 = choose|path: Seq<(int, int)>|
        {
            &&& #[trigger] is_way_spec(before, wrap_x, wrap_y, colour, path)
            &&& path[0] == start
            &&& path.last() == p
        };
    let path = path_0.push(q);
    assert forall|i: int| 0 <= i < path.len() implies in_picture_spec(
        size_spec(before),
        #[trigger] path[i],
    ) && colour_spec(before, path[i]) == colour by {
        if i < path_0.len() {
            assert(path[i] == path_0[i]);
        }
    }
    assert forall|i: int| 1 <= i < path.len() implies linked_spec(
        size_spec(before),
        wrap_x,
        wrap_y,
        path[i - 1],
        #[trigger] path[i],
    ) by {
        if i < path_0.len() {
            assert(path[i] == path_0[i]);
            assert(path[i - 1] == path_0[i - 1]);
        }
    }
    assert(is_way_spec(before, wrap_x, wrap_y, colour, path));
    assert(path[0] == path_0[0]);
}

/// Once nothing waits any more, every place on a way from the start is painted.
proof fn lemma_way_is_painted(
    before: Texture,
    now: Texture,
    wrap_x: bool,
    wrap_y: bool,
    start: (int, int),
    color: (u8, u8, u8, u8),
    path: Seq<(int, int)>,
)
    requires
        painted(before, now, color, start),
        closure(before, now, Seq::empty(), wrap_x, wrap_y, start, color, start, 4),
        is_way_spec(before, wrap_x, wrap_y, colour_spec(before, start), path),
        path[0] == start,
    ensures
        painted(before, now, color, path.last()),
    decreases path.len(),
{
    if path.len() > 1 {
        let shorter = path.drop_last();
        assert forall|i: int| 0 <= i < shorter.len() implies in_picture_spec(
            size_spec(before),
            #[trigger] shorter[i],
        ) && colour_spec(before, shorter[i]) == colour_spec(before, start) by {
            assert(shorter[i] == path[i]);
        }
        assert forall|i: int| 1 <= i < shorter.len() implies linked_spec(
            size_spec(before),
            wrap_x,
            wrap_y,
            shorter[i - 1],
            #[trigger] shorter[i],
        ) by {
            assert(shorter[i] == path[i]);
            assert(shorter[i - 1] == path[i - 1]);
        }
        assert(shorter[0] == path[0]);
        lemma_way_is_painted(before, now, wrap_x, wrap_y, start, color, shorter);
        let p = shorter.last();
        let q = path.last();
        assert(p == path[path.len() - 2]);
        assert(in_picture_spec(size_spec(before), path[path.len() - 2]));
        assert(in_picture_spec(size_spec(before), path[path.len() - 1]) && colour_spec(
            before,
            path[path.len() - 1],
        ) == colour_spec(before, start));
        assert(linked_spec(size_spec(before), wrap_x, wrap_y, path[path.len() - 1 - 1], path[path.len() - 1]));
        let k = choose|k: int|
            0 <= k < 4 && #[trigger] step_spec(size_spec(before), wrap_x, wrap_y, p, k) == q;
        assert(closed_at(before, now, Seq::empty(), wrap_x, wrap_y, start, color, p, k));
        assert(forall|i: int| !#[trigger] waiting(Seq::<(i32, i32)>::empty(), i, q));
        assert(!waits(Seq::<(i32, i32)>::empty(), q));
    }
}

fn same_colour(a: (u8, u8, u8, u8), b: (u8, u8, u8, u8)) -> (r: bool)
    ensures
        r == (a == b),
{
    a.0 == b.0 && a.1 == b.1 && a.2 == b.2 && a.3 == b.3
}

/// The coordinate `c`, at most one step outside `0..n`, brought round into it.
fn wrapped(c: i32, n: i32) -> (r: i32)
    requires
        n > 0,
        -1 <= c <= n,
    ensures
        r == (c as int) % (n as int),
{
    proof {
        if c < 0 {
            vstd::arithmetic::div_mod::lemma_mod_add_multiples_vanish(c as int, n as int);
            vstd::arithmetic::div_mod::lemma_small_mod((n + c) as nat, n as nat);
        } else if c >= n {
            vstd::arithmetic::div_mod::lemma_mod_self_0(n as int);
        } else {
            vstd::arithmetic::div_mod::lemma_small_mod(c as nat, n as nat);
        }
    }
    if c < 0 {
        c + n
    } else if c >= n {
        c - n
    } else {
        c
    }
}

impl Texture {
    /// The colour of every place after the patch of `start` has been painted
    /// in `color`: the new colour within the patch, the old one outside it.
    pub open spec fn flooded_spec(
        before: Texture,
        wrap_x: bool,
        wrap_y: bool,
        start: (int, int),
        color: (u8, u8, u8, u8),
        p: (int, int),
    ) -> (u8, u8, u8, u8) {
        if in_patch_spec(before, wrap_x, wrap_y, start, p) {
            color
        } else {
            colour_spec(before, p)
        }
    }

    /// Paints the patch of the place `(x, y)` in `color`: every place that a
    /// way through places of its colour leads to, each step going right,
    /// down, left or up, and over the edge where the axis wraps. The picture
    /// must not be more than `i32::MAX` wide or high.
    pub fn flood_fill(&mut self, x: i32, y: i32, color: (u8, u8, u8, u8), wrap_x: bool, wrap_y: bool)
        requires
            in_picture_spec(old(self).size(), (x as int, y as int)),
            old(self).size().0 <= i32::MAX,
            old(self).size().1 <= i32::MAX,
        ensures
            final(self).size() == old(self).size(),
            forall|p: (int, int)|
                in_picture_spec(old(self).size(), p) ==> #[trigger] colour_spec(*final(self), p)
                    == Self::flooded_spec(*old(self), wrap_x, wrap_y, (x as int, y as int), color, p),
    {
        let ghost before = *self;
        let ghost start = (x as int, y as int);
        let (width, height) = image_dimensions(self);
        let start_color = self.get(x as u32, y as u32);
        if same_colour(start_color, color) {
            proof {
                assert forall|p: (int, int)| in_picture_spec(before.size(), p) implies colour_spec(
                    before,
                    p,
                ) == Self::flooded_spec(before, wrap_x, wrap_y, start, color, p) by {
                    if in_patch_spec(before, wrap_x, wrap_y, start, p) {
                        let path = choose|path: Seq<(int, int)>|
                            {
                                &&& #[trigger] is_way_spec(
                                    before,
                                    wrap_x,
                                    wrap_y,
                                    colour_spec(before, start),
                                    path,
                                )
                                &&& path[0] == start
                                &&& path.last() == p
                            };
                        assert(colour_spec(before, path[path.len() - 1]) == color);
                    }
                }
            }
            return ;
        }
        let mut to_color: Vec<(i32, i32)> = Vec::new();
        to_color.push((x, y));
        let ghost mut unset: Set<int> = set_int_range(0, width * height);
        proof {
            if width * height >= 0 {
                lemma_int_range(0, width * height);
            }
            assert(waiting(to_color@, 0, start));
            assert(is_way_spec(before, wrap_x, wrap_y, colour_spec(before, start), seq![start]));
            assert(in_patch_spec(before, wrap_x, wrap_y, start, start)) by {
                let path = seq![start];
                assert(path[0] == start && path.last() == start);
            }
            assert forall|p: (int, int)|
                in_picture_spec(before.size(), p) implies unset.contains(
                #[trigger] flat_spec(width, p),
            ) by {
                assert(0 <= p.1 * width + p.0 < width * height) by (nonlinear_arith)
                    requires
                        0 <= p.0 < width,
                        0 <= p.1 < height,
                ;
            }
        }

        while to_color.len() > 0
            invariant
                before == *old(self),
                start == (x as int, y as int),
                (width, height) == size_spec(before),
                start_color == colour_spec(before, start),
                fill_inv(before, *self, to_color@, unset, wrap_x, wrap_y, start, color),
                closure(before, *self, to_color@, wrap_x, wrap_y, start, color, start, 4),
            decreases unset.len(), to_color@.len(),
        {
            let ghost stack_0 = to_color@;
            let ghost now_0 = *self;
            let (px, py) = to_color.pop().unwrap();
            let ghost p = (px as int, py as int);
            let ghost stack_1 = to_color@;
            proof {
                assert(stack_0[stack_0.len() - 1] == (px, py));
                assert(sound(before, now_0, wrap_x, wrap_y, start, color, p));
                lemma_popped(before, now_0, stack_0, unset, wrap_x, wrap_y, start, color);
            }
            if same_colour(self.get(px as u32, py as u32), start_color) {
                self.put(px as u32, py as u32, color);
                proof {
                    assert(stack_0 =~= stack_1.push((p.0 as i32, p.1 as i32)));
                    assert(unset.contains(flat_spec(width, p)));
                    lemma_painted(before, now_0, *self, stack_1, unset, wrap_x, wrap_y, start, color, p);
                    unset = unset.remove(flat_spec(width, p));
                }
                let mut k: usize = 0;
                while k < 4
                    invariant
                        k <= 4,
                        before == *old(self),
                        start == (x as int, y as int),
                        (width, height) == size_spec(before),
                        start_color == colour_spec(before, start),
                        p == (px as int, py as int),
                        in_picture_spec(size_spec(before), p),
                        painted(before, *self, color, p),
                        in_patch_spec(before, wrap_x, wrap_y, start, p),
                        fill_inv(before, *self, to_color@, unset, wrap_x, wrap_y, start, color),
                        closure(before, *self, to_color@, wrap_x, wrap_y, start, color, p, k as int),
                    decreases 4 - k,
                {
                    let (nx, ny) = if k == 0 {
                        (px + 1, py)
                    } else if k == 1 {
                        (px, py + 1)
                    } else if k == 2 {
                        (px - 1, py)
                    } else {
                        (px, py - 1)
                    };
                    let ghost stack_2 = to_color@;
                    self.add_for_fill(&mut to_color, nx, ny, start_color, wrap_x, wrap_y);
                    proof {
                        let q = step_spec(size_spec(before), wrap_x, wrap_y, p, k as int);
                        lemma_added(
                            before,
                            *self,
                            stack_2,
                            to_color@,
                            unset,
                            wrap_x,
                            wrap_y,
                            start,
                            color,
                            p,
                            k as int,
                        );
                    }
                    k += 1;
                }
            }
        }

        proof {
            assert(to_color@ =~= Seq::empty());
            assert(forall|i: int| !#[trigger] waiting(to_color@, i, start));
            assert(!waits(to_color@, start));
            assert forall|p: (int, int)| in_picture_spec(before.size(), p) implies #[trigger] colour_spec(
                *self,
                p,
            ) == Self::flooded_spec(before, wrap_x, wrap_y, start, color, p) by {
                assert(sound(before, *self, wrap_x, wrap_y, start, color, p));
                if in_patch_spec(before, wrap_x, wrap_y, start, p) {
                    let path = choose|path: Seq<(int, int)>|
                        {
                            &&& #[trigger] is_way_spec(
                                before,
                                wrap_x,
                                wrap_y,
                                colour_spec(before, start),
                                path,
                            )
                            &&& path[0] == start
                            &&& path.last() == p
                        };
                    lemma_way_is_painted(before, *self, wrap_x, wrap_y, start, color, path);
                }
            }
        }
    }

    /// Puts the place `(x, y)`, brought round where its axis wraps, on the
    /// places that wait to be painted, where it lies in the picture and has
    /// the colour `start_color`.
    fn add_for_fill(
        &self,
        to_color: &mut Vec<(i32, i32)>,
        x: i32,
        y: i32,
        start_color: (u8, u8, u8, u8),
        wrap_x: bool,
        wrap_y: bool,
    )
        requires
            0 < self.size().0 <= i32::MAX,
            0 < self.size().1 <= i32::MAX,
            -1 <= x <= self.size().0,
            -1 <= y <= self.size().1,
        ensures
            ({
                let size = self.size();
                let q = (
                    if wrap_x {
                        (x as int) % (size.0 as int)
                    } else {
                        x as int
                    },
                    if wrap_y {
                        (y as int) % (size.1 as int)
                    } else {
                        y as int
                    },
                );
                final(to_color)@ == if in_picture_spec(size, q) && colour_spec(*self, q)
                    == start_color {
                    old(to_color)@.push((q.0 as i32, q.1 as i32))
                } else {
                    old(to_color)@
                }
            }),
    {
        let (width, height) = image_dimensions(self);
        let mut x = x;
        let mut y = y;
        if wrap_x {
            x = wrapped(x, width as i32);
        }
        if wrap_y {
            y = wrapped(y, height as i32);
        }
        if 0 <= x && (x as u32) < width && 0 <= y && (y as u32) < height && same_colour(
            self.get(x as u32, y as u32),
            start_color,
        ) {
            to_color.push((x, y));
        }
    }

    /// Turns the patch of the place `(x, y)` from blue to red or from red to
    /// blue; a patch of another colour is left as it is.
    pub fn flood_fill_inv(&mut self, x: i32, y: i32, wrap_x: bool, wrap_y: bool)
        requires
            in_picture_spec(old(self).size(), (x as int, y as int)),
            old(self).size().0 <= i32::MAX,
            old(self).size().1 <= i32::MAX,
        ensures
            final(self).size() == old(self).size(),
            forall|p: (int, int)|
                in_picture_spec(old(self).size(), p) ==> #[trigger] colour_spec(*final(self), p) == {
                    let here = colour_spec(*old(self), (x as int, y as int));
                    if here == blue_spec() {
                        Self::flooded_spec(
                            *old(self),
                            wrap_x,
                            wrap_y,
                            (x as int, y as int),
                            red_spec(),
                            p,
                        )
                    } else if here == red_spec() {
                        Self::flooded_spec(
                            *old(self),
                            wrap_x,
                            wrap_y,
                            (x as int, y as int),
                            blue_spec(),
                            p,
                        )
                    } else {
                        colour_spec(*old(self), p)
                    }
                },
    {
        let here = self.get(x as u32, y as u32);
        if same_colour(here, (0, 0, 255, 255)) {
            self.flood_fill(x, y, (255, 0, 0, 255), wrap_x, wrap_y);
        } else if same_colour(here, (255, 0, 0, 255)) {
            self.flood_fill(x, y, (0, 0, 255, 255), wrap_x, wrap_y);
        }
    }
}

/// Taking the last place off those that wait breaks nothing where the place
/// is painted already; where it is not, its own directions are left open.
proof fn lemma_popped(
    before: Texture,
    now: Texture,
    stack_0: Seq<(i32, i32)>,
    unset: Set<int>,
    wrap_x: bool,
    wrap_y: bool,
    start: (int, int),
    color: (u8, u8, u8, u8),
)
    requires
        stack_0.len() > 0,
        fill_inv(before, now, stack_0, unset, wrap_x, wrap_y, start, color),
        closure(before, now, stack_0, wrap_x, wrap_y, start, color, start, 4),
    ensures
        ({
            let p = (stack_0.last().0 as int, stack_0.last().1 as int);
            let stack_1 = stack_0.drop_last();
            &&& in_picture_spec(size_spec(before), p)
            &&& in_patch_spec(before, wrap_x, wrap_y, start, p)
            &&& colour_spec(now, p) != colour_spec(before, start) ==> fill_inv(
                before,
                now,
                stack_1,
                unset,
                wrap_x,
                wrap_y,
                start,
                color,
            ) && closure(before, now, stack_1, wrap_x, wrap_y, start, color, start, 4)
        }),
{
    let p = (stack_0.last().0 as int, stack_0.last().1 as int);
    let stack_1 = stack_0.drop_last();
    assert(stack_0[stack_0.len() - 1] == stack_0.last());
    if colour_spec(now, p) != colour_spec(before, start) {
        assert(in_patch_spec(before, wrap_x, wrap_y, start, p));
        let path = choose|path: Seq<(int, int)>|
            {
                &&& #[trigger] is_way_spec(before, wrap_x, wrap_y, colour_spec(before, start), path)
                &&& path[0] == start
                &&& path.last() == p
            };
        assert(colour_spec(before, path[path.len() - 1]) == colour_spec(before, start));
        assert(painted(before, now, color, p));
        assert forall|q: (int, int)| #[trigger] waits(stack_0, q) implies painted(
            before,
            now,
            color,
            q,
        ) || waits(stack_1, q) by {
            let i = choose|i: int| #[trigger] waiting(stack_0, i, q);
            if i < stack_1.len() {
                assert(stack_1[i] == stack_0[i]);
                assert(waiting(stack_1, i, q));
            }
        }
        assert forall|q: (int, int), k: int|
            in_picture_spec(size_spec(before), q) && 0 <= k < 4 implies #[trigger] closed_at(
            before,
            now,
            stack_1,
            wrap_x,
            wrap_y,
            start,
            color,
            q,
            k,
        ) by {
            assert(closed_at(before, now, stack_0, wrap_x, wrap_y, start, color, q, k));
        }
        assert forall|i: int| 0 <= i < stack_1.len() implies in_picture_spec(
            size_spec(before),
            ((#[trigger] stack_1[i]).0 as int, stack_1[i].1 as int),
        ) && in_patch_spec(
            before,
            wrap_x,
            wrap_y,
            start,
            (stack_1[i].0 as int, stack_1[i].1 as int),
        ) by {
            assert(stack_1[i] == stack_0[i]);
        }
    }
}

/// Painting the place that was taken off those that wait keeps what holds
/// of the painting; the directions of that place are still to be looked at.
proof fn lemma_painted(
    before: Texture,
    now_0: Texture,
    now: Texture,
    stack_1: Seq<(i32, i32)>,
    unset: Set<int>,
    wrap_x: bool,
    wrap_y: bool,
    start: (int, int),
    color: (u8, u8, u8, u8),
    p: (int, int),
)
    requires
        in_picture_spec(size_spec(before), p),
        in_patch_spec(before, wrap_x, wrap_y, start, p),
        colour_spec(now_0, p) == colour_spec(before, start),
        fill_inv(before, now_0, stack_1.push((p.0 as i32, p.1 as i32)), unset, wrap_x, wrap_y, start, color),
        closure(
            before,
            now_0,
            stack_1.push((p.0 as i32, p.1 as i32)),
            wrap_x,
            wrap_y,
            start,
            color,
            start,
            4,
        ),
        size_spec(now) == size_spec(now_0),
        forall|q: (int, int)|
            in_picture_spec(size_spec(before), q) ==> #[trigger] colour_spec(now, q) == if q == p {
                color
            } else {
                colour_spec(now_0, q)
            },
    ensures
        painted(before, now, color, p),
        unset.remove(flat_spec(size_spec(before).0, p)).len() < unset.len(),
        fill_inv(
            before,
            now,
            stack_1,
            unset.remove(flat_spec(size_spec(before).0, p)),
            wrap_x,
            wrap_y,
            start,
            color,
        ),
        closure(before, now, stack_1, wrap_x, wrap_y, start, color, p, 0),
{
    let stack_0 = stack_1.push((p.0 as i32, p.1 as i32));
    let size = size_spec(before);
    assert(sound(before, now_0, wrap_x, wrap_y, start, color, p));
    assert(unset.contains(flat_spec(size.0, p)));
    assert forall|q: (int, int)| in_picture_spec(size, q) implies #[trigger] sound(
        before,
        now,
        wrap_x,
        wrap_y,
        start,
        color,
        q,
    ) by {
        assert(sound(before, now_0, wrap_x, wrap_y, start, color, q));
    }
    assert forall|q: (int, int)|
        in_picture_spec(size, q) && colour_spec(now, q) == colour_spec(
            before,
            start,
        ) implies unset.remove(flat_spec(size.0, p)).contains(#[trigger] flat_spec(size.0, q)) by {
        assert(unset.contains(flat_spec(size.0, q)));
        assert(q != p);
        assert(flat_spec(size.0, q) != flat_spec(size.0, p)) by (nonlinear_arith)
            requires
                0 <= q.0 < size.0,
                0 <= p.0 < size.0,
                0 <= q.1,
                0 <= p.1,
                q != p,
                flat_spec(size.0, q) == q.1 * size.0 + q.0,
                flat_spec(size.0, p) == p.1 * size.0 + p.0,
        ;
    }
    assert forall|q: (int, int)| #[trigger] waits(stack_0, q) implies painted(
        before,
        now,
        color,
        q,
    ) || waits(stack_1, q) by {
        let i = choose|i: int| #[trigger] waiting(stack_0, i, q);
        if i < stack_1.len() {
            assert(stack_1[i] == stack_0[i]);
            assert(waiting(stack_1, i, q));
        } else {
            assert(q == p);
        }
    }
    assert forall|q: (int, int), k: int|
        in_picture_spec(size, q) && 0 <= k < 4 && !(q == p && k >= 0) implies #[trigger] closed_at(
        before,
        now,
        stack_1,
        wrap_x,
        wrap_y,
        start,
        color,
        q,
        k,
    ) by {
        assert(closed_at(before, now_0, stack_0, wrap_x, wrap_y, start, color, q, k));
        let r = step_spec(size, wrap_x, wrap_y, q, k);
        if in_picture_spec(size, r) {
            assert(sound(before, now_0, wrap_x, wrap_y, start, color, r));
            assert(sound(before, now_0, wrap_x, wrap_y, start, color, q));
        }
    }
    assert forall|i: int| 0 <= i < stack_1.len() implies in_picture_spec(
        size,
        ((#[trigger] stack_1[i]).0 as int, stack_1[i].1 as int),
    ) && in_patch_spec(
        before,
        wrap_x,
        wrap_y,
        start,
        (stack_1[i].0 as int, stack_1[i].1 as int),
    ) by {
        assert(stack_1[i] == stack_0[i]);
    }
}

/// Looking at the direction `k` of the place that is being painted keeps
/// what holds of the painting, and settles that direction.
proof fn lemma_added(
    before: Texture,
    now: Texture,
    stack_2: Seq<(i32, i32)>,
    stack_3: Seq<(i32, i32)>,
    unset: Set<int>,
    wrap_x: bool,
    wrap_y: bool,
    start: (int, int),
    color: (u8, u8, u8, u8),
    p: (int, int),
    k: int,
)
    requires
        0 <= k < 4,
        in_picture_spec(size_spec(before), p),
        painted(before, now, color, p),
        in_patch_spec(before, wrap_x, wrap_y, start, p),
        fill_inv(before, now, stack_2, unset, wrap_x, wrap_y, start, color),
        closure(before, now, stack_2, wrap_x, wrap_y, start, color, p, k),
        ({
            let q = step_spec(size_spec(before), wrap_x, wrap_y, p, k);
            stack_3 == if in_picture_spec(size_spec(before), q) && colour_spec(now, q)
                == colour_spec(before, start) {
                stack_2.push((q.0 as i32, q.1 as i32))
            } else {
                stack_2
            }
        }),
    ensures
        fill_inv(before, now, stack_3, unset, wrap_x, wrap_y, start, color),
        closure(before, now, stack_3, wrap_x, wrap_y, start, color, p, k + 1),
{
    let size = size_spec(before);
    let q = step_spec(size, wrap_x, wrap_y, p, k);
    assert forall|r: (int, int)| #[trigger] waits(stack_2, r) implies waits(stack_3, r) by {
        let i = choose|i: int| #[trigger] waiting(stack_2, i, r);
        assert(stack_3[i] == stack_2[i]);
        assert(waiting(stack_3, i, r));
    }
    if in_picture_spec(size, q) && colour_spec(now, q) == colour_spec(before, start) {
        assert(sound(before, now, wrap_x, wrap_y, start, color, q));
        assert(colour_spec(before, q) == colour_spec(before, start));
        assert(linked_spec(size, wrap_x, wrap_y, p, q));
        lemma_patch_grows(before, wrap_x, wrap_y, start, p, q);
        assert(waiting(stack_3, stack_2.len() as int, q));
    }
    assert forall|i: int| 0 <= i < stack_3.len() implies in_picture_spec(
        size,
        ((#[trigger] stack_3[i]).0 as int, stack_3[i].1 as int),
    ) && in_patch_spec(
        before,
        wrap_x,
        wrap_y,
        start,
        (stack_3[i].0 as int, stack_3[i].1 as int),
    ) by {
        if i < stack_2.len() {
            assert(stack_3[i] == stack_2[i]);
        }
    }
    assert forall|r: (int, int), j: int|
        in_picture_spec(size, r) && 0 <= j < 4 && !(r == p && j >= k + 1) implies #[trigger] closed_at(
        before,
        now,
        stack_3,
        wrap_x,
        wrap_y,
        start,
        color,
        r,
        j,
    ) by {
        if r == p && j == k {
            if in_picture_spec(size, q) && colour_spec(before, q) == colour_spec(before, start) {
                assert(sound(before, now, wrap_x, wrap_y, start, color, q));
            }
        } else {
            assert(closed_at(before, now, stack_2, wrap_x, wrap_y, start, color, r, j));
        }
    }
}

/// Green, as lines are drawn.
pub open spec fn green_spec() -> (u8, u8, u8, u8) {
    (0u8, 255u8, 0u8, 255u8)
}

/// The distance between two points of the plane.
pub open spec fn distance_spec<F: Float>(a: Vector2<F>, b: Vector2<F>) -> F {
    let d = a.sub_spec(b);
    d.x.mul_spec(d.x).add_spec(d.y.mul_spec(d.y)).sqrt_spec()
}

pub fn distance<F: Float>(a: &Vector2<F>, b: &Vector2<F>) -> (r: F)
    ensures
        r == distance_spec(*a, *b),
{
    let d = a.sub(b);
    d.x.mul(d.x).add(d.y.mul(d.y)).sqrt()
}

/// The point `from` after `k` steps of `step`, each added in turn.
pub open spec fn walked_spec<F: Float>(from: Vector2<F>, step: Vector2<F>, k: nat) -> Vector2<F>
    decreases k,
{
    if k == 0 {
        from
    } else {
        walked_spec(from, step, (k - 1) as nat).add_spec(step)
    }
}

/// The place of a picture of the size `size` into which the point `at`
/// falls when it is rounded down.
pub open spec fn floor_place_spec<F: Float>(size: (u32, u32), at: Vector2<F>) -> (int, int) {
    ((at.x.floor_u32_spec() % size.0) as int, (at.y.floor_u32_spec() % size.1) as int)
}

/// The place of a picture of the size `size` into which the point `at`
/// falls when it is rounded up.
pub open spec fn ceil_place_spec<F: Float>(size: (u32, u32), at: Vector2<F>) -> (int, int) {
    ((at.x.ceil_u32_spec() % size.0) as int, (at.y.ceil_u32_spec() % size.1) as int)
}

/// Whether the point `at` touches the place `p`.
pub open spec fn touches_spec<F: Float>(size: (u32, u32), at: Vector2<F>, p: (int, int)) -> bool {
    floor_place_spec(size, at) == p || ceil_place_spec(size, at) == p
}

/// Whether one of the first `n` points of the walk touches the place `p`.
pub open spec fn walk_touches_spec<F: Float>(
    size: (u32, u32),
    from: Vector2<F>,
    step: Vector2<F>,
    n: nat,
    p: (int, int),
) -> bool
    decreases n,
{
    n > 0 && (walk_touches_spec(size, from, step, (n - 1) as nat, p) || touches_spec(
        size,
        walked_spec(from, step, (n - 1) as nat),
        p,
    ))
}

/// The offsets by which the end of a line may be moved along an axis: a
/// whole picture to either side where the axis wraps, else none.
pub open spec fn wrap_range_spec(wrap: bool) -> (int, int) {
    if wrap {
        (-1, 1)
    } else {
        (0, 0)
    }
}

/// The point `pt` moved by candidate `k` of nine: by `k / 3 - 1` whole
/// pictures along x and by `k % 3 - 1` along y.
pub open spec fn moved_spec<F: Float>(pt: Vector2<F>, k: int) -> Vector2<F> {
    pt.add_spec(
        Vector2 { x: F::from_i32_spec((k / 3 - 1) as i32), y: F::from_i32_spec((k % 3 - 1) as i32) },
    )
}

/// Whether candidate `k` of nine is allowed: it moves only along axes that wrap.
pub open spec fn allowed_spec(wrap_x: bool, wrap_y: bool, k: int) -> bool {
    (wrap_x || k / 3 == 1) && (wrap_y || k % 3 == 1)
}

/// The best of the first `n` candidates for the end of a line from `pt_0`:
/// the first allowed one that is nearer than all before it, or the end itself
/// while none is allowed.
pub open spec fn best_end_spec<F: Float>(
    pt_0: Vector2<F>,
    pt_1: Vector2<F>,
    wrap_x: bool,
    wrap_y: bool,
    n: nat,
) -> (Vector2<F>, bool)
    decreases n,
{
    if n == 0 {
        (pt_1, false)
    } else {
        let before = best_end_spec(pt_0, pt_1, wrap_x, wrap_y, (n - 1) as nat);
        let here = moved_spec(pt_1, n - 1);
        if allowed_spec(wrap_x, wrap_y, n - 1) && (!before.1 || distance_spec(pt_0, here).lt_spec(
            distance_spec(pt_0, before.0),
        )) {
            (here, true)
        } else {
            before
        }
    }
}

impl Texture {
    /// The point of the picture for a point of the unit square.
    pub open spec fn normal_to_img_spec<F: Float>(&self, pt: Vector2<F>) -> Vector2<F> {
        Vector2 {
            x: pt.x.mul_spec(F::from_i32_spec(self.size().0 as i32)),
            y: pt.y.mul_spec(F::from_i32_spec(self.size().1 as i32)),
        }
    }

    pub fn normal_to_img<F: Float>(&self, pt: &Vector2<F>) -> (r: Vector2<F>)
        requires
            self.size().0 <= i32::MAX,
            self.size().1 <= i32::MAX,
        ensures
            r == self.normal_to_img_spec(*pt),
    {
        let (width, height) = image_dimensions(self);
        Vector2 {
            x: pt.x.mul(F::from_i32(width as i32)),
            y: pt.y.mul(F::from_i32(height as i32)),
        }
    }

    /// The step of a line between two points of the picture: half a place
    /// along the line.
    pub open spec fn line_step_spec<F: Float>(from: Vector2<F>, to: Vector2<F>) -> Vector2<F> {
        let d = distance_spec(from, to);
        let two = F::from_i32_spec(2);
        Vector2 {
            x: to.x.sub_spec(from.x).div_spec(d).div_spec(two),
            y: to.y.sub_spec(from.y).div_spec(d).div_spec(two),
        }
    }

    /// How many points of a line between two points of the picture are
    /// marked: one more than twice its length, rounded.
    pub open spec fn line_count_spec<F: Float>(from: Vector2<F>, to: Vector2<F>) -> nat {
        (distance_spec(from, to).mul_spec(F::from_i32_spec(2)).round_u32_spec() + 1) as nat
    }

    /// Draws a green line between two points of the unit square: the line
    /// is walked in steps of half a place, and the places that each point
    /// falls into when rounded down and when rounded up are painted. A point
    /// beyond the picture comes in at the other side. The picture must have
    /// places, and not be more than `i32::MAX` wide or high.
    pub fn line<F: Float>(&mut self, pt_0: &Vector2<F>, pt_1: &Vector2<F>)
        requires
            0 < old(self).size().0 <= i32::MAX,
            0 < old(self).size().1 <= i32::MAX,
        ensures
            final(self).size() == old(self).size(),
            forall|p: (int, int)|
                in_picture_spec(old(self).size(), p) ==> #[trigger] colour_spec(*final(self), p) == {
                    let from = old(self).normal_to_img_spec(*pt_0);
                    let to = old(self).normal_to_img_spec(*pt_1);
                    if walk_touches_spec(
                        old(self).size(),
                        from,
                        Self::line_step_spec(from, to),
                        Self::line_count_spec(from, to),
                        p,
                    ) {
                        green_spec()
                    } else {
                        colour_spec(*old(self), p)
                    }
                },
    {
        // This algorithm is slow and stupid but simple to implement
        let ghost before = *self;
        let (width, height) = image_dimensions(self);
        let pt_0_img = self.normal_to_img(pt_0);
        let pt_1_img = self.normal_to_img(pt_1);

        let length = distance(&pt_0_img, &pt_1_img);
        let two = F::from_i32(2);
        let diff = Vector2 {
            x: pt_1_img.x.sub(pt_0_img.x).div(length).div(two),
            y: pt_1_img.y.sub(pt_0_img.y).div(length).div(two),
        };
        let last = length.mul(two).round_u32();

        let mut current = pt_0_img;
        let mut i: u64 = 0;
        while i <= last as u64
            invariant
                i <= last + 1,
                self.size() == (width, height),
                self.size() == before.size(),
                0 < width,
                0 < height,
                current == walked_spec(pt_0_img, diff, i as nat),
                forall|p: (int, int)|
                    in_picture_spec(before.size(), p) ==> #[trigger] colour_spec(*self, p)
                        == if walk_touches_spec(before.size(), pt_0_img, diff, i as nat, p) {
                        green_spec()
                    } else {
                        colour_spec(before, p)
                    },
            decreases last + 1 - i,
        {
            let x = current.x.floor_u32() % width;
            let y = current.y.floor_u32() % height;
            self.put(x, y, (0, 255, 0, 255));

            let x = current.x.ceil_u32() % width;
            let y = current.y.ceil_u32() % height;
            self.put(x, y, (0, 255, 0, 255));

            current = current.add(&diff);
            i += 1;
        }
    }

    /// Draws a green line from `pt_0` to the nearest of the points that
    /// `pt_1` stands for: itself, and along every axis that wraps also the
    /// points a whole picture to either side.
    pub fn wrapped_line<F: Float>(
        &mut self,
        pt_0: &Vector2<F>,
        pt_1: &Vector2<F>,
        wrap_x: bool,
        wrap_y: bool,
    )
        requires
            0 < old(self).size().0 <= i32::MAX,
            0 < old(self).size().1 <= i32::MAX,
        ensures
            final(self).size() == old(self).size(),
            forall|p: (int, int)|
                in_picture_spec(old(self).size(), p) ==> #[trigger] colour_spec(*final(self), p) == {
                    let from = old(self).normal_to_img_spec(*pt_0);
                    let to = old(self).normal_to_img_spec(
                        best_end_spec(*pt_0, *pt_1, wrap_x, wrap_y, 9).0,
                    );
                    if walk_touches_spec(
                        old(self).size(),
                        from,
                        Self::line_step_spec(from, to),
                        Self::line_count_spec(from, to),
                        p,
                    ) {
                        green_spec()
                    } else {
                        colour_spec(*old(self), p)
                    }
                },
    {
        let mut best = *pt_1;
        let mut found = false;
        let mut k: usize = 0;
        while k < 9
            invariant
                k <= 9,
                (best, found) == best_end_spec(*pt_0, *pt_1, wrap_x, wrap_y, k as nat),
            decreases 9 - k,
        {
            let off_x: i32 = (k / 3) as i32 - 1;
            let off_y: i32 = (k % 3) as i32 - 1;
            if (wrap_x || off_x == 0) && (wrap_y || off_y == 0) {
                let here = pt_1.add(&Vector2 { x: F::from_i32(off_x), y: F::from_i32(off_y) });
                assert(here == moved_spec(*pt_1, k as int));
                if !found || distance(pt_0, &here).lt(distance(pt_0, &best)) {
                    best = here;
                    found = true;
                }
            }
            k += 1;
        }
        self.line(pt_0, &best);
    }
}

} // verus!
