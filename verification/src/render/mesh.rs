use vstd::prelude::*;
use vstd::slice::slice_subrange;

use crate::numerics::linalg::{Vector2, Vector3};
use crate::numerics::{bytes_spec, Float};

verus! {

/// Three indices into the vertices of a mesh.
#[derive(Clone, Copy, Debug)]
pub struct Triangle(pub [u32; 3]);

/// A model file that does not follow the format.
#[derive(Debug)]
pub struct ParseError;

/// A vertex with the normal of the surface at it.
#[derive(Clone, Copy, Debug)]
pub struct ClassicVertex<F> {
    pub position: Vector3<F>,
    pub normal: Vector3<F>,
}

impl<F> ClassicVertex<F> {
    pub fn new(position: Vector3<F>, normal: Vector3<F>) -> (r: Self)
        ensures
            r == (ClassicVertex { position, normal }),
    {
        Self { position, normal }
    }
}

/// A vertex with the normal of the surface at it and its place in a picture
/// that is laid over the surface.
#[derive(Clone, Copy, Debug)]
pub struct DuckVertex<F> {
    pub position: Vector3<F>,
    pub normal: Vector3<F>,
    pub tex: Vector2<F>,
}

impl<F> DuckVertex<F> {
    pub fn new(position: Vector3<F>, normal: Vector3<F>, tex: Vector2<F>) -> (r: Self)
        ensures
            r == (DuckVertex { position, normal, tex }),
    {
        Self { position, normal, tex }
    }
}

/// Vertices, and the triangles that span them.
pub struct Mesh<V> {
    pub vertices: Vec<V>,
    pub triangles: Vec<Triangle>,
}

impl<V> Mesh<V> {
    pub fn new(vertices: Vec<V>, triangles: Vec<Triangle>) -> (r: Self)
        ensures
            r.vertices == vertices,
            r.triangles == triangles,
    {
        Self { vertices, triangles }
    }

    pub fn empty() -> (r: Self)
        ensures
            r.vertices@.len() == 0,
            r.triangles@.len() == 0,
    {
        Self { vertices: Vec::new(), triangles: Vec::new() }
    }

    /// Whether every triangle names three vertices that the mesh has.
    pub open spec fn closed_spec(&self) -> bool {
        forall|i: int, c: int|
            0 <= i < self.triangles@.len() && 0 <= c < 3 ==> (#[trigger] self.triangles@[i].0[c])
                < self.vertices@.len()
    }

    pub fn closed(&self) -> (r: bool)
        ensures
            r == self.closed_spec(),
    {
        let n = self.vertices.len();
        let mut i: usize = 0;
        while i < self.triangles.len()
            invariant
                i <= self.triangles@.len(),
                n == self.vertices@.len(),
                forall|j: int, c: int|
                    0 <= j < i && 0 <= c < 3 ==> (#[trigger] self.triangles@[j].0[c]) < n,
            decreases self.triangles@.len() - i,
        {
            let t = &self.triangles[i].0;
            if t[0] as usize >= n || t[1] as usize >= n || t[2] as usize >= n {
                assert(!(self.triangles@[i as int].0[0] < n) || !(self.triangles@[i as int].0[1]
                    < n) || !(self.triangles@[i as int].0[2] < n));
                return false;
            }
            assert forall|j: int, c: int| 0 <= j < i + 1 && 0 <= c < 3 implies (
            #[trigger] self.triangles@[j].0[c]) < n by {
                if j == i {
                    assert(c == 0 || c == 1 || c == 2);
                }
            }
            i += 1;
        }
        true
    }
}

/// Whether `b` is the character of a decimal digit.
pub open spec fn is_digit_spec(b: u8) -> bool {
    48 <= b <= 57
}

/// The number that the decimal digits `digits` write.
pub open spec fn decimal_spec(digits: Seq<u8>) -> nat
    decreases digits.len(),
{
    if digits.len() == 0 {
        0
    } else {
        decimal_spec(digits.drop_last()) * 10 + (digits.last() - 48) as nat
    }
}

/// The digits of a number as it is written: the whole text, but for a plus
/// sign at its start.
pub open spec fn digits_spec(text: Seq<u8>) -> Seq<u8> {
    if text.len() > 0 && text[0] == 43 {
        text.subrange(1, text.len() as int)
    } else {
        text
    }
}

/// Whether `text` writes a number that fits 32 bits: at least one digit and
/// nothing but digits, after at most one plus sign.
pub open spec fn writes_u32_spec(text: Seq<u8>) -> bool {
    let digits = digits_spec(text);
    &&& digits.len() > 0
    &&& forall|i: int| 0 <= i < digits.len() ==> is_digit_spec(#[trigger] digits[i])
    &&& decimal_spec(digits) <= u32::MAX
}

proof fn lemma_decimal_grows(digits: Seq<u8>, n: int)
    requires
        0 <= n <= digits.len(),
        forall|i: int| 0 <= i < digits.len() ==> is_digit_spec(#[trigger] digits[i]),
    ensures
        decimal_spec(digits.subrange(0, n)) <= decimal_spec(digits),
    decreases digits.len() - n,
{
    if n < digits.len() {
        let longer = digits.subrange(0, n + 1);
        assert(longer.drop_last() =~= digits.subrange(0, n));
        assert(longer.last() == digits[n]);
        lemma_decimal_grows(digits, n + 1);
    } else {
        assert(digits.subrange(0, n) =~= digits);
    }
}

fn parse_u32(string: &[u8]) -> (r: Result<u32, ParseError>)
    ensures
        r.is_ok() == writes_u32_spec(string@),
        r.is_ok() ==> r.unwrap() == decimal_spec(digits_spec(string@)),
{
    let n = string.len();
    let start: usize = if n > 0 && string[0] == 43 {
        1
    } else {
        0
    };
    let ghost digits = digits_spec(string@);
    assert(digits =~= string@.subrange(start as int, n as int));
    if start == n {
        return Err(ParseError {  });
    }
    let mut value: u32 = 0;
    let mut i: usize = start;
    while i < n
        invariant
            start <= i <= n,
            n == string@.len(),
            digits == string@.subrange(start as int, n as int),
            digits == digits_spec(string@),
            forall|j: int| 0 <= j < i - start ==> is_digit_spec(#[trigger] digits[j]),
            value == decimal_spec(digits.subrange(0, i - start)),
        decreases n - i,
    {
        let b = string[i];
        assert(b == digits[i - start]);
        if b < 48 || b > 57 {
            assert(!is_digit_spec(digits[i - start]));
            return Err(ParseError {  });
        }
        let ghost longer = digits.subrange(0, i - start + 1);
        proof {
            assert(longer.drop_last() =~= digits.subrange(0, i - start));
            assert(longer.last() == b);
        }
        let d: u32 = (b - 48) as u32;
        assert(decimal_spec(longer) == value * 10 + d);
        if value > (u32::MAX - d) / 10 {
            proof {
                assert(decimal_spec(longer) > u32::MAX);
                if forall|j: int| 0 <= j < digits.len() ==> is_digit_spec(#[trigger] digits[j]) {
                    lemma_decimal_grows(digits, i - start + 1);
                    assert(decimal_spec(digits) > u32::MAX);
                }
                assert(!writes_u32_spec(string@));
            }
            return Err(ParseError {  });
        }
        value = value * 10 + d;
        i += 1;
    }
    assert(digits.subrange(0, n - start) =~= digits);
    assert(writes_u32_spec(string@));
    Ok(value)
}

/// Where the next field of `line` from `from` on ends: at the next space,
/// or at the end of the line.
pub open spec fn field_end_spec(line: Seq<u8>, from: int) -> int
    decreases line.len() - from,
{
    if from >= line.len() || line[from] == 32 {
        from
    } else {
        field_end_spec(line, from + 1)
    }
}

/// The numbers among the fields of `line` from `from` on, where a field is
/// what stands between two spaces. A field that writes no number is passed over.
pub open spec fn numbers_spec(line: Seq<u8>, from: int) -> Seq<u32>
    decreases line.len() - from,
{
    if from < 0 || from > line.len() {
        Seq::empty()
    } else {
        let end = field_end_spec(line, from);
        let field = line.subrange(from, end);
        let here = if writes_u32_spec(field) {
            seq![decimal_spec(digits_spec(field)) as u32]
        } else {
            Seq::empty()
        };
        if end < from || end >= line.len() {
            here
        } else {
            here + numbers_spec(line, end + 1)
        }
    }
}

fn field_end(line: &[u8], from: usize) -> (r: usize)
    requires
        from <= line@.len(),
    ensures
        r == field_end_spec(line@, from as int),
        from <= r <= line@.len(),
{
    let mut end = from;
    while end < line.len() && line[end] != 32
        invariant
            from <= end <= line@.len(),
            field_end_spec(line@, end as int) == field_end_spec(line@, from as int),
        decreases line@.len() - end,
    {
        end += 1;
    }
    end
}

fn parse_triangle(string: &[u8]) -> (r: Result<Triangle, ParseError>)
    ensures
        r.is_ok() == (numbers_spec(string@, 0).len() == 3),
        r.is_ok() ==> r.unwrap().0@ == numbers_spec(string@, 0),
{
    let mut nums: Vec<u32> = Vec::new();
    let mut from: usize = 0;
    loop
        invariant_except_break
            from <= string@.len(),
            numbers_spec(string@, 0) =~= nums@ + numbers_spec(string@, from as int),
        ensures
            nums@ =~= numbers_spec(string@, 0),
        decreases string@.len() - from,
    {
        let end = field_end(string, from);
        let ghost before = nums@;
        let field = slice_subrange(string, from, end);
        match parse_u32(field) {
            Ok(value) => {
                nums.push(value);
            },
            Err(_) => {},
        }
        let ghost here = if writes_u32_spec(field@) {
            seq![decimal_spec(digits_spec(field@)) as u32]
        } else {
            Seq::empty()
        };
        assert(nums@ =~= before + here);
        if end >= string.len() {
            assert(numbers_spec(string@, from as int) =~= here);
            break ;
        }
        assert(numbers_spec(string@, from as int) =~= here + numbers_spec(string@, end + 1));
        from = end + 1;
    }
    if nums.len() != 3 {
        return Err(ParseError {  });
    }
    let triangle = Triangle([nums[0], nums[1], nums[2]]);
    assert(triangle.0@ =~= nums@);
    Ok(triangle)
}

/// The scalars among the fields of `line` from `from` on. A field that
/// writes no scalar is passed over.
pub open spec fn scalars_spec<F: Float>(line: Seq<u8>, from: int) -> Seq<F>
    decreases line.len() - from,
{
    if from < 0 || from > line.len() {
        Seq::empty()
    } else {
        let end = field_end_spec(line, from);
        let here = match F::parse_spec(bytes_spec(line.subrange(from, end))) {
            Some(value) => seq![value],
            None => Seq::empty(),
        };
        if end < from || end >= line.len() {
            here
        } else {
            here + scalars_spec::<F>(line, end + 1)
        }
    }
}

/// The vertex that eight scalars write: its place, its normal and its
/// place in the picture.
pub open spec fn vertex_of_spec<F: Float>(nums: Seq<F>) -> DuckVertex<F> {
    DuckVertex {
        position: Vector3 { x: nums[0], y: nums[1], z: nums[2] },
        normal: Vector3 { x: nums[3], y: nums[4], z: nums[5] },
        tex: Vector2 { x: nums[6], y: nums[7] },
    }
}

/// Where the line of `text` that starts at `from` ends: at the next line
/// feed, or at the end of the text.
pub open spec fn line_end_spec(text: Seq<u8>, from: int) -> int
    decreases text.len() - from,
{
    if from >= text.len() || text[from] == 10 {
        from
    } else {
        line_end_spec(text, from + 1)
    }
}

/// The line of `text` that starts at `from`, without the line feed that
/// ends it, and without a carriage return just before that line feed.
pub open spec fn line_spec(text: Seq<u8>, from: int) -> Seq<u8> {
    let end = line_end_spec(text, from);
    if end < text.len() && end > from && text[end - 1] == 13 {
        text.subrange(from, end - 1)
    } else {
        text.subrange(from, end)
    }
}

/// Where the line after the one that starts at `from` starts.
pub open spec fn next_line_spec(text: Seq<u8>, from: int) -> int {
    let end = line_end_spec(text, from);
    if end < text.len() {
        end + 1
    } else {
        end
    }
}

/// The first `n` vertices that the lines of `text` from `from` on write,
/// and where the line after them starts; `None` where a line is missing or
/// writes no vertex.
pub open spec fn read_vertices_spec<F: Float>(text: Seq<u8>, from: int, n: nat) -> Option<
    (Seq<DuckVertex<F>>, int),
>
    decreases n,
{
    if n == 0 {
        Some((Seq::empty(), from))
    } else {
        match read_vertices_spec::<F>(text, from, (n - 1) as nat) {
            None => None,
            Some((vertices, at)) => {
                let nums = scalars_spec::<F>(line_spec(text, at), 0);
                if at >= text.len() || nums.len() != 8 {
                    None
                } else {
                    Some((vertices.push(vertex_of_spec(nums)), next_line_spec(text, at)))
                }
            },
        }
    }
}

/// The first `n` triangles that the lines of `text` from `from` on write,
/// and where the line after them starts; `None` where a line is missing or
/// writes no triangle.
pub open spec fn read_triangles_spec(text: Seq<u8>, from: int, n: nat) -> Option<
    (Seq<Seq<u32>>, int),
>
    decreases n,
{
    if n == 0 {
        Some((Seq::empty(), from))
    } else {
        match read_triangles_spec(text, from, (n - 1) as nat) {
            None => None,
            Some((triangles, at)) => {
                let nums = numbers_spec(line_spec(text, at), 0);
                if at >= text.len() || nums.len() != 3 {
                    None
                } else {
                    Some((triangles.push(nums), next_line_spec(text, at)))
                }
            },
        }
    }
}

/// The number that the line of `text` at `from` writes, where there is
/// such a line.
pub open spec fn count_spec(text: Seq<u8>, from: int) -> Option<nat> {
    if from < text.len() && writes_u32_spec(line_spec(text, from)) {
        Some(decimal_spec(digits_spec(line_spec(text, from))))
    } else {
        None
    }
}

/// The model that `text` writes: a line with the number of vertices, a line
/// of eight scalars for every vertex, a line with the number of triangles,
/// and a line of three numbers for every triangle. What follows is not read.
pub open spec fn model_spec<F: Float>(text: Seq<u8>) -> Option<
    (Seq<DuckVertex<F>>, Seq<Seq<u32>>),
> {
    match count_spec(text, 0) {
        None => None,
        Some(vertex_count) => match read_vertices_spec::<F>(
            text,
            next_line_spec(text, 0),
            vertex_count,
        ) {
            None => None,
            Some((vertices, at)) => match count_spec(text, at) {
                None => None,
                Some(triangle_count) => match read_triangles_spec(
                    text,
                    next_line_spec(text, at),
                    triangle_count,
                ) {
                    None => None,
                    Some((triangles, end)) => Some((vertices, triangles)),
                },
            },
        },
    }
}

proof fn lemma_vertices_stay_unread<F: Float>(text: Seq<u8>, from: int, n: nat, m: nat)
    requires
        n <= m,
        read_vertices_spec::<F>(text, from, n).is_none(),
    ensures
        read_vertices_spec::<F>(text, from, m).is_none(),
    decreases m,
{
    if n < m {
        lemma_vertices_stay_unread::<F>(text, from, n, (m - 1) as nat);
    }
}

proof fn lemma_triangles_stay_unread(text: Seq<u8>, from: int, n: nat, m: nat)
    requires
        n <= m,
        read_triangles_spec(text, from, n).is_none(),
    ensures
        read_triangles_spec(text, from, m).is_none(),
    decreases m,
{
    if n < m {
        lemma_triangles_stay_unread(text, from, n, (m - 1) as nat);
    }
}

/// The line of `text` that starts at `from`, and where the next one starts.
fn next_line(text: &[u8], from: usize) -> (r: (&[u8], usize))
    requires
        from <= text@.len(),
    ensures
        r.0@ == line_spec(text@, from as int),
        r.1 == next_line_spec(text@, from as int),
        from <= r.1 <= text@.len(),
        from < text@.len() ==> from < r.1,
{
    let mut end = from;
    while end < text.len() && text[end] != 10
        invariant
            from <= end <= text@.len(),
            line_end_spec(text@, end as int) == line_end_spec(text@, from as int),
        decreases text@.len() - end,
    {
        end += 1;
    }
    let stop = if end < text.len() && end > from && text[end - 1] == 13 {
        end - 1
    } else {
        end
    };
    let next = if end < text.len() {
        end + 1
    } else {
        end
    };
    (slice_subrange(text, from, stop), next)
}

impl<F: Float> Mesh<DuckVertex<F>> {
    /// The vertex that `string` writes: eight scalars between spaces, for
    /// its place, its normal and its place in the picture. Fields that write
    /// no scalar are passed over; anything but eight scalars is an error.
    pub fn parse_vertex(string: &[u8]) -> (r: Result<DuckVertex<F>, ParseError>)
        ensures
            r.is_ok() == (scalars_spec::<F>(string@, 0).len() == 8),
            r.is_ok() ==> r.unwrap() == vertex_of_spec(scalars_spec::<F>(string@, 0)),
    {
        let mut nums: Vec<F> = Vec::new();
        let mut from: usize = 0;
        loop
            invariant_except_break
                from <= string@.len(),
                scalars_spec::<F>(string@, 0) =~= nums@ + scalars_spec::<F>(string@, from as int),
            ensures
                nums@ =~= scalars_spec::<F>(string@, 0),
            decreases string@.len() - from,
        {
            let end = field_end(string, from);
            let ghost before = nums@;
            let field = slice_subrange(string, from, end);
            match F::parse(field) {
                Some(value) => {
                    nums.push(value);
                },
                None => {},
            }
            let ghost here = match F::parse_spec(bytes_spec(field@)) {
                Some(value) => seq![value],
                None => Seq::empty(),
            };
            assert(nums@ =~= before + here);
            if end >= string.len() {
                assert(scalars_spec::<F>(string@, from as int) =~= here);
                break ;
            }
            assert(scalars_spec::<F>(string@, from as int) =~= here + scalars_spec::<F>(
                string@,
                end + 1,
            ));
            from = end + 1;
        }
        if nums.len() != 8 {
            return Err(ParseError {  });
        }
        Ok(
            DuckVertex {
                position: Vector3 { x: nums[0], y: nums[1], z: nums[2] },
                normal: Vector3 { x: nums[3], y: nums[4], z: nums[5] },
                tex: Vector2 { x: nums[6], y: nums[7] },
            },
        )
    }

    /// The number that the text `string` writes in decimal digits, after at
    /// most one plus sign. A number that does not fit 32 bits is an error.
    pub fn parse_u32(string: &[u8]) -> (r: Result<u32, ParseError>)
        ensures
            r.is_ok() == writes_u32_spec(string@),
            r.is_ok() ==> r.unwrap() == decimal_spec(digits_spec(string@)),
    {
        parse_u32(string)
    }

    /// The triangle that `string` writes: three numbers between spaces.
    /// Fields that write no number are passed over; anything but three
    /// numbers is an error.
    pub fn parse_triangle(string: &[u8]) -> (r: Result<Triangle, ParseError>)
        ensures
            r.is_ok() == (numbers_spec(string@, 0).len() == 3),
            r.is_ok() ==> r.unwrap().0@ == numbers_spec(string@, 0),
    {
        parse_triangle(string)
    }

    /// The model that the text `string` writes.
    pub fn parse_model(string: &[u8]) -> (r: Result<Self, ParseError>)
        ensures
            r.is_ok() == model_spec::<F>(string@).is_some(),
            r.is_ok() ==> {
                let model = model_spec::<F>(string@).unwrap();
                &&& r.unwrap().vertices@ == model.0
                &&& r.unwrap().triangles@.len() == model.1.len()
                &&& forall|i: int|
                    0 <= i < model.1.len() ==> (#[trigger] r.unwrap().triangles@[i]).0@ == model.1[i]
            },
    {
        if string.len() == 0 {
            return Err(ParseError {  });
        }
        let (first, after_first) = next_line(string, 0);
        let vertex_count = match parse_u32(first) {
            Ok(count) => count,
            Err(_) => {
                return Err(ParseError {  });
            },
        };
        let mut vertices: Vec<DuckVertex<F>> = Vec::new();
        let mut at = after_first;
        let mut i: u32 = 0;
        while i < vertex_count
            invariant
                i <= vertex_count,
                at <= string@.len(),
                count_spec(string@, 0) == Some(vertex_count as nat),
                after_first == next_line_spec(string@, 0),
                read_vertices_spec::<F>(string@, after_first as int, i as nat) == Some(
                    (vertices@, at as int),
                ),
            decreases vertex_count - i,
        {
            if at >= string.len() {
                proof {
                    assert(read_vertices_spec::<F>(
                        string@,
                        after_first as int,
                        (i + 1) as nat,
                    ).is_none());
                    lemma_vertices_stay_unread::<F>(
                        string@,
                        after_first as int,
                        (i + 1) as nat,
                        vertex_count as nat,
                    );
                }
                return Err(ParseError {  });
            }
            let (line, next) = next_line(string, at);
            match Self::parse_vertex(line) {
                Ok(vertex) => {
                    vertices.push(vertex);
                },
                Err(_) => {
                    proof {
                        assert(read_vertices_spec::<F>(
                            string@,
                            after_first as int,
                            (i + 1) as nat,
                        ).is_none());
                        lemma_vertices_stay_unread::<F>(
                            string@,
                            after_first as int,
                            (i + 1) as nat,
                            vertex_count as nat,
                        );
                    }
                    return Err(ParseError {  });
                },
            }
            at = next;
            i += 1;
        }
        if at >= string.len() {
            return Err(ParseError {  });
        }
        let (second, after_second) = next_line(string, at);
        let triangle_count = match parse_u32(second) {
            Ok(count) => count,
            Err(_) => {
                return Err(ParseError {  });
            },
        };
        let mut triangles: Vec<Triangle> = Vec::new();
        let ghost mut read: Seq<Seq<u32>> = Seq::empty();
        let ghost vertices_end = at as int;
        let mut at = after_second;
        let mut i: u32 = 0;
        while i < triangle_count
            invariant
                i <= triangle_count,
                at <= string@.len(),
                count_spec(string@, 0) == Some(vertex_count as nat),
                after_first == next_line_spec(string@, 0),
                read_vertices_spec::<F>(string@, after_first as int, vertex_count as nat) == Some(
                    (vertices@, vertices_end),
                ),
                count_spec(string@, vertices_end) == Some(triangle_count as nat),
                after_second == next_line_spec(string@, vertices_end),
                read_triangles_spec(string@, after_second as int, i as nat) == Some(
                    (read, at as int),
                ),
                triangles@.len() == read.len(),
                forall|j: int| 0 <= j < read.len() ==> (#[trigger] triangles@[j]).0@ == read[j],
            decreases triangle_count - i,
        {
            if at >= string.len() {
                proof {
                    assert(read_triangles_spec(string@, after_second as int, (i + 1) as nat).is_none());
                    lemma_triangles_stay_unread(
                        string@,
                        after_second as int,
                        (i + 1) as nat,
                        triangle_count as nat,
                    );
                }
                return Err(ParseError {  });
            }
            let (line, next) = next_line(string, at);
            match parse_triangle(line) {
                Ok(triangle) => {
                    proof {
                        read = read.push(triangle.0@);
                    }
                    triangles.push(triangle);
                },
                Err(_) => {
                    proof {
                        assert(read_triangles_spec(
                            string@,
                            after_second as int,
                            (i + 1) as nat,
                        ).is_none());
                        lemma_triangles_stay_unread(
                            string@,
                            after_second as int,
                            (i + 1) as nat,
                            triangle_count as nat,
                        );
                    }
                    return Err(ParseError {  });
                },
            }
            at = next;
            i += 1;
        }
        Ok(Self { triangles, vertices })
    }
}

} // verus!
