//! Reading Wavefront OBJ meshes: the line grammar and its errors.
use vstd::prelude::*;
use vstd::string::*;

verus! {

/// OBJ features this reader does not handle.
#[derive(Debug, Clone, Copy, PartialEq, Eq, Structural)]
pub enum UnimplementedFeature {
    NonTriFace,
    WeightCoordinateOnVertex,
    TexCoordsNotEqualTo2,
    FaceWithNoTexture,
    FaceWithNoNormal,
}

#[derive(Debug)]
pub enum ParseErrorKind {
    NotSupported(UnimplementedFeature),
    IncorrectNComponents,
    ExpectedFloat,
    ExpectedInt,
    IOError(std::io::Error),
}

/// A parse failure, with the line it happened on where known.
#[derive(Debug)]
pub struct ParseError {
    pub kind: ParseErrorKind,
    pub line: Option<usize>,
}

impl ParseError {
    pub fn new(kind: ParseErrorKind, line: Option<usize>) -> (r: Self)
        ensures
            r.kind == kind,
            r.line == line,
    {
        ParseError { kind, line }
    }
}

/// Reads OBJ files line by line.
#[derive(Debug)]
pub struct ObjLoader {}

impl ObjLoader {
    pub fn new() -> (r: Self)
        ensures
            r == (ObjLoader {}),
    {
        ObjLoader {  }
    }
}

/// The characters `str::split_ascii_whitespace` separates on.
pub open spec fn is_ascii_ws(c: char) -> bool {
    c == ' ' || c == '\t' || c == '\n' || c == '\r' || c == '\x0C'
}

/// Reading `s` left to right: the words completed so far, and the word in
/// progress.
pub open spec fn word_state(s: Seq<char>) -> (Seq<Seq<char>>, Seq<char>)
    decreases s.len(),
{
    if s.len() == 0 {
        (Seq::empty(), Seq::empty())
    } else {
        let (done, cur) = word_state(s.drop_last());
        if is_ascii_ws(s.last()) {
            if cur.len() > 0 {
                (done.push(cur), Seq::empty())
            } else {
                (done, Seq::empty())
            }
        } else {
            (done, cur.push(s.last()))
        }
    }
}

/// The maximal runs of non-whitespace characters of `s`, in order.
pub open spec fn words(s: Seq<char>) -> Seq<Seq<char>> {
    let (done, cur) = word_state(s);
    if cur.len() > 0 {
        done.push(cur)
    } else {
        done
    }
}

/// The pieces of `s` between slashes (one piece when there is none).
pub open spec fn slash_fields(s: Seq<char>) -> Seq<Seq<char>>
    decreases s.len(),
{
    if s.len() == 0 {
        seq![Seq::empty()]
    } else {
        let f = slash_fields(s.drop_last());
        if s.last() == '/' {
            f.push(Seq::empty())
        } else {
            f.update(f.len() - 1, f.last().push(s.last()))
        }
    }
}

pub open spec fn is_digit(c: char) -> bool {
    '0' <= c && c <= '9'
}

pub open spec fn digits_value(d: Seq<char>) -> nat
    decreases d.len(),
{
    if d.len() == 0 {
        0
    } else {
        digits_value(d.drop_last()) * 10 + (d.last() as nat - '0' as nat) as nat
    }
}

/// `s` without a leading `+`.
pub open spec fn sign_stripped(s: Seq<char>) -> Seq<char> {
    if s.len() > 0 && s[0] == '+' {
        s.drop_first()
    } else {
        s
    }
}

pub open spec fn all_digits(d: Seq<char>) -> bool {
    forall|i: int| 0 <= i < d.len() ==> is_digit(#[trigger] d[i])
}

/// The digits of an unsigned decimal: an optional `+`, then at least one digit.
pub open spec fn unsigned_digits(s: Seq<char>) -> Option<Seq<char>> {
    if sign_stripped(s).len() > 0 && all_digits(sign_stripped(s)) {
        Some(sign_stripped(s))
    } else {
        None
    }
}

/// `s` read as a `usize` in decimal, as `str::parse::<usize>` reads it.
pub open spec fn parse_usize(s: Seq<char>) -> Option<usize> {
    match unsigned_digits(s) {
        Some(d) => if digits_value(d) <= usize::MAX {
            Some(digits_value(d) as usize)
        } else {
            None
        },
        None => None,
    }
}

/// A 1-based OBJ index, as a 0-based one.
pub open spec fn obj_index(s: Seq<char>) -> Option<usize> {
    match parse_usize(s) {
        Some(v) => if v >= 1 {
            Some((v - 1) as usize)
        } else {
            None
        },
        None => None,
    }
}

/// One corner of a face, `v/t/n`: its vertex, texture and normal indices.
pub open spec fn corner(w: Seq<char>) -> Result<(usize, usize, usize), ParseErrorKind> {
    let f = slash_fields(w);
    if f.len() != 3 {
        Err(ParseErrorKind::IncorrectNComponents)
    } else if obj_index(f[0]) is None {
        Err(ParseErrorKind::ExpectedInt)
    } else if f[1].len() == 0 {
        Err(ParseErrorKind::NotSupported(UnimplementedFeature::FaceWithNoTexture))
    } else if obj_index(f[1]) is None {
        Err(ParseErrorKind::ExpectedInt)
    } else if f[2].len() == 0 {
        Err(ParseErrorKind::NotSupported(UnimplementedFeature::FaceWithNoNormal))
    } else if obj_index(f[2]) is None {
        Err(ParseErrorKind::ExpectedInt)
    } else {
        Ok((obj_index(f[0])->Some_0, obj_index(f[1])->Some_0, obj_index(f[2])->Some_0))
    }
}

pub open spec fn views(v: Seq<Vec<char>>) -> Seq<Seq<char>> {
    v.map_values(|w: Vec<char>| w@)
}

/// The characters of `s`.
pub fn chars_of(s: &str) -> (r: Vec<char>)
    ensures
        r@ == s@,
{
    let n = s.unicode_len();
    let mut out: Vec<char> = Vec::new();
    let mut i: usize = 0;
    while i < n
        invariant
            n == s@.len(),
            i <= n,
            out@ == s@.take(i as int),
        decreases n - i,
    {
        out.push(s.get_char(i));
        assert(s@.take(i + 1) =~= s@.take(i as int).push(s@[i as int]));
        i += 1;
    }
    assert(s@.take(n as int) =~= s@);
    out
}

/// Splits on ASCII whitespace, as `str::split_ascii_whitespace` does.
pub fn split_words(s: &[char]) -> (r: Vec<Vec<char>>)
    ensures
        views(r@) == words(s@),
{
    let mut done: Vec<Vec<char>> = Vec::new();
    let mut cur: Vec<char> = Vec::new();
    let mut i: usize = 0;
    while i < s.len()
        invariant
            i <= s@.len(),
            views(done@) == word_state(s@.take(i as int)).0,
            cur@ == word_state(s@.take(i as int)).1,
        decreases s@.len() - i,
    {
        let c = s[i];
        assert(s@.take(i + 1).drop_last() =~= s@.take(i as int));
        let ghost before = done@;
        if c == ' ' || c == '\t' || c == '\n' || c == '\r' || c == '\x0C' {
            if cur.len() > 0 {
                done.push(cur);
                assert(views(done@) =~= views(before).push(cur@));
                cur = Vec::new();
            }
        } else {
            cur.push(c);
        }
        i += 1;
    }
    assert(s@.take(i as int) =~= s@);
    if cur.len() > 0 {
        let ghost before = done@;
        done.push(cur);
        assert(views(done@) =~= views(before).push(cur@));
    }
    done
}

/// Splits on `/`, as `str::split('/')` does.
pub fn split_slash(s: &[char]) -> (r: Vec<Vec<char>>)
    ensures
        views(r@) == slash_fields(s@),
{
    let mut done: Vec<Vec<char>> = Vec::new();
    let mut cur: Vec<char> = Vec::new();
    let mut i: usize = 0;
    assert(views(done@).push(cur@) =~= slash_fields(s@.take(0)));
    while i < s.len()
        invariant
            i <= s@.len(),
            views(done@).push(cur@) == slash_fields(s@.take(i as int)),
        decreases s@.len() - i,
    {
        let c = s[i];
        assert(s@.take(i + 1).drop_last() =~= s@.take(i as int));
        let ghost before = done@;
        let ghost before_cur = cur@;
        if c == '/' {
            done.push(cur);
            cur = Vec::new();
            assert(views(done@).push(cur@) =~= views(before).push(before_cur).push(Seq::empty()));
        } else {
            cur.push(c);
            assert(views(done@).push(cur@) =~= views(before).push(before_cur).update(
                views(before).len() as int,
                before_cur.push(c),
            ));
        }
        i += 1;
    }
    assert(s@.take(i as int) =~= s@);
    let ghost before = done@;
    done.push(cur);
    assert(views(done@) =~= views(before).push(cur@));
    done
}

/// A digit string's value never falls below the value of one of its prefixes.
proof fn lemma_digits_prefix(d: Seq<char>, k: int)
    requires
        0 <= k <= d.len(),
    ensures
        digits_value(d) >= digits_value(d.take(k)),
    decreases d.len(),
{
    if k < d.len() {
        lemma_digits_prefix(d.drop_last(), k);
        assert(d.drop_last().take(k) =~= d.take(k));
    } else {
        assert(d.take(k) =~= d);
    }
}

/// Reads `s` as a `usize` in decimal, as `str::parse::<usize>` does.
pub fn parse_usize_chars(s: &[char]) -> (r: Option<usize>)
    ensures
        r == parse_usize(s@),
{
    let start: usize = if s.len() > 0 && s[0] == '+' {
        1
    } else {
        0
    };
    let ghost d = sign_stripped(s@);
    assert(d =~= s@.subrange(start as int, s@.len() as int));
    if start == s.len() {
        return None;
    }
    let mut v: u128 = 0;
    let mut i: usize = start;
    while i < s.len()
        invariant
            start <= i <= s@.len(),
            start < s@.len(),
            d =~= s@.subrange(start as int, s@.len() as int),
            d == sign_stripped(s@),
            forall|j: int| start <= j < i ==> is_digit(#[trigger] s@[j]),
            v == digits_value(d.take(i - start)),
            v <= usize::MAX,
        decreases s@.len() - i,
    {
        let c = s[i];
        assert(d[i - start] == s@[i as int]);
        if !('0' <= c && c <= '9') {
            assert(!is_digit(d[i - start]));
            assert(unsigned_digits(s@) is None);
            return None;
        }
        let dg = (c as u32 - '0' as u32) as u128;
        assert(d.take(i - start + 1).drop_last() =~= d.take(i - start));
        assert(d.take(i - start + 1).last() == c);
        v = v * 10 + dg;
        assert(v == digits_value(d.take(i - start + 1)));
        if v > usize::MAX as u128 {
            proof {
                lemma_digits_prefix(d, i - start + 1);
                if unsigned_digits(s@) is Some {
                    assert(unsigned_digits(s@)->Some_0 == d);
                }
            }
            return None;
        }
        i += 1;
    }
    assert(d.take(i - start) =~= d);
    assert(all_digits(d)) by {
        assert forall|j: int| 0 <= j < d.len() implies is_digit(#[trigger] d[j]) by {
            assert(d[j] == s@[j + start]);
        }
    }
    Some(v as usize)
}

/// Reads a 1-based OBJ index as a 0-based one.
fn obj_index_chars(s: &[char]) -> (r: Option<usize>)
    ensures
        r == obj_index(s@),
{
    match parse_usize_chars(s) {
        Some(v) => if v >= 1 {
            Some(v - 1)
        } else {
            None
        },
        None => None,
    }
}

/// Reads one face corner `v/t/n`.
pub fn parse_corner(w: &[char]) -> (r: Result<(usize, usize, usize), ParseErrorKind>)
    ensures
        r == corner(w@),
{
    let f = split_slash(w);
    if f.len() != 3 {
        return Err(ParseErrorKind::IncorrectNComponents);
    }
    assert(f@[0]@ == slash_fields(w@)[0] && f@[1]@ == slash_fields(w@)[1] && f@[2]@
        == slash_fields(w@)[2]);
    let v = match obj_index_chars(f[0].as_slice()) {
        Some(v) => v,
        None => return Err(ParseErrorKind::ExpectedInt),
    };
    if f[1].len() == 0 {
        return Err(ParseErrorKind::NotSupported(UnimplementedFeature::FaceWithNoTexture));
    }
    let t = match obj_index_chars(f[1].as_slice()) {
        Some(t) => t,
        None => return Err(ParseErrorKind::ExpectedInt),
    };
    if f[2].len() == 0 {
        return Err(ParseErrorKind::NotSupported(UnimplementedFeature::FaceWithNoNormal));
    }
    let n = match obj_index_chars(f[2].as_slice()) {
        Some(n) => n,
        None => return Err(ParseErrorKind::ExpectedInt),
    };
    Ok((v, t, n))
}

/// Vertex, texture and normal indices of one corner of a face.
pub type Corner = (usize, usize, usize);

/// The triangle of corners `t`, `t + 1`, `t + 2`, read in that order.
pub open spec fn triangle(ws: Seq<Seq<char>>, t: int) -> Result<(Corner, Corner, Corner), ParseErrorKind> {
    match corner(ws[t]) {
        Err(e) => Err(e),
        Ok(a) => match corner(ws[t + 1]) {
            Err(e) => Err(e),
            Ok(b) => match corner(ws[t + 2]) {
                Err(e) => Err(e),
                Ok(c) => Ok((a, b, c)),
            },
        },
    }
}

/// The first `k` triangles of a strip of corners, or the first error met.
pub open spec fn triangles(ws: Seq<Seq<char>>, k: int) -> Result<
    Seq<(Corner, Corner, Corner)>,
    ParseErrorKind,
>
    decreases k,
{
    if k <= 0 {
        Ok(Seq::empty())
    } else {
        match triangles(ws, k - 1) {
            Err(e) => Err(e),
            Ok(ts) => match triangle(ws, k - 1) {
                Err(e) => Err(e),
                Ok(tr) => Ok(ts.push(tr)),
            },
        }
    }
}

/// Once an error is met, no later triangle changes it.
proof fn lemma_triangles_error_stays(ws: Seq<Seq<char>>, k: int, m: int)
    requires
        0 <= k <= m,
        triangles(ws, k) is Err,
    ensures
        triangles(ws, m) == triangles(ws, k),
    decreases m - k,
{
    if m > k {
        lemma_triangles_error_stays(ws, k, m - 1);
    }
}

/// The faces read so far, as triangles of 0-based indices.
#[derive(Debug)]
pub struct FaceList {
    pub face_verts: Vec<(usize, usize, usize)>,
    pub face_normals: Vec<(usize, usize, usize)>,
    pub face_tex_coords: Vec<(usize, usize, usize)>,
}

/// `faces` with the triangles `ts` appended.
pub open spec fn with_triangles(faces: FaceList, ts: Seq<(Corner, Corner, Corner)>, f: FaceList) -> bool {
    &&& f.face_verts@ == faces.face_verts@ + ts.map_values(
        |t: (Corner, Corner, Corner)| (t.0.0, t.1.0, t.2.0),
    )
    &&& f.face_tex_coords@ == faces.face_tex_coords@ + ts.map_values(
        |t: (Corner, Corner, Corner)| (t.0.1, t.1.1, t.2.1),
    )
    &&& f.face_normals@ == faces.face_normals@ + ts.map_values(
        |t: (Corner, Corner, Corner)| (t.0.2, t.1.2, t.2.2),
    )
}

/// Starts with the two characters `a` and `b`.
pub open spec fn has_prefix2(l: Seq<char>, a: char, b: char) -> bool {
    l.len() >= 2 && l[0] == a && l[1] == b
}

/// Starts with the three characters `a`, `b` and `c`.
pub open spec fn has_prefix3(l: Seq<char>, a: char, b: char, c: char) -> bool {
    l.len() >= 3 && l[0] == a && l[1] == b && l[2] == c
}

/// The words after the two-character tag of a line.
pub open spec fn line_words(l: Seq<char>) -> Seq<Seq<char>> {
    words(l.subrange(2, l.len() as int))
}

impl FaceList {
    pub fn new() -> (r: Self)
        ensures
            r.face_verts@.len() == 0,
            r.face_normals@.len() == 0,
            r.face_tex_coords@.len() == 0,
    {
        FaceList { face_verts: Vec::new(), face_normals: Vec::new(), face_tex_coords: Vec::new() }
    }
}

/// The kinds of coordinate lines: `v`, `vn` and `vt`.
#[derive(Debug, Clone, Copy, PartialEq, Eq, Structural)]
pub enum CoordinateLine {
    Vertex,
    Normal,
    Texture,
}

/// The line begins with the tag of its kind, followed by a space.
pub open spec fn is_coordinate_line(kind: CoordinateLine, l: Seq<char>) -> bool {
    match kind {
        CoordinateLine::Vertex => has_prefix2(l, 'v', ' '),
        CoordinateLine::Normal => has_prefix3(l, 'v', 'n', ' '),
        CoordinateLine::Texture => has_prefix3(l, 'v', 't', ' '),
    }
}

/// The error for a coordinate line of `n` words, if any: a vertex has 3, a
/// normal 3, texture coordinates 2.
pub open spec fn coordinate_count_error(kind: CoordinateLine, n: int) -> Option<ParseErrorKind> {
    match kind {
        CoordinateLine::Vertex => if n == 4 {
            Some(ParseErrorKind::NotSupported(UnimplementedFeature::WeightCoordinateOnVertex))
        } else if n != 3 {
            Some(ParseErrorKind::IncorrectNComponents)
        } else {
            None
        },
        CoordinateLine::Normal => if n != 3 {
            Some(ParseErrorKind::IncorrectNComponents)
        } else {
            None
        },
        CoordinateLine::Texture => if n == 1 || n == 3 {
            Some(ParseErrorKind::NotSupported(UnimplementedFeature::TexCoordsNotEqualTo2))
        } else if n != 2 {
            Some(ParseErrorKind::IncorrectNComponents)
        } else {
            None
        },
    }
}

impl ObjLoader {
    /// Reads a face line `f a b c [d]` into `faces`: one triangle for three
    /// corners, two (a strip: corners 1 2 3, then 2 3 4) for four. Any other line is
    /// left alone. On an error `faces` is unchanged.
    pub fn parse_face_line(faces: &mut FaceList, line: &str, line_no: usize) -> (r: Result<
        bool,
        ParseError,
    >)
        ensures
            !has_prefix2(line@, 'f', ' ') ==> (r matches Ok(false)) && *final(faces) == *old(faces),
            has_prefix2(line@, 'f', ' ') ==> {
                let ws = line_words(line@);
                if ws.len() != 3 && ws.len() != 4 {
                    (r matches Err(e) && e.kind == ParseErrorKind::IncorrectNComponents && e.line
                        == Some(line_no)) && *final(faces) == *old(faces)
                } else {
                    match triangles(ws, ws.len() - 2) {
                        Err(k) => (r matches Err(e) && e.kind == k && e.line == Some(line_no))
                            && *final(faces) == *old(faces),
                        Ok(ts) => (r matches Ok(true)) && with_triangles(*old(faces), ts, *final(faces)),
                    }
                }
            },
    {
        let chars = chars_of(line);
        if !(chars.len() >= 2 && chars[0] == 'f' && chars[1] == ' ') {
            return Ok(false);
        }
        let rest = vstd::slice::slice_subrange(chars.as_slice(), 2, chars.len());
        let ws = split_words(rest);
        let ghost gws = line_words(line@);
        assert(rest@ =~= line@.subrange(2, line@.len() as int));
        let n = ws.len();
        if n != 3 && n != 4 {
            return Err(ParseError::new(ParseErrorKind::IncorrectNComponents, Some(line_no)));
        }
        let mut tris: Vec<(Corner, Corner, Corner)> = Vec::new();
        let mut t: usize = 0;
        while t < n - 2
            invariant
                n == ws@.len() == gws.len(),
                views(ws@) == gws,
                n == 3 || n == 4,
                t <= n - 2,
                triangles(gws, t as int) == Ok::<_, ParseErrorKind>(tris@),
                gws == line_words(line@),
                has_prefix2(line@, 'f', ' '),
                *faces == *old(faces),
            decreases n - 2 - t,
        {
            assert(ws@[t as int]@ == gws[t as int]);
            assert(ws@[t + 1]@ == gws[t + 1]);
            assert(ws@[t + 2]@ == gws[t + 2]);
            let a = match parse_corner(ws[t].as_slice()) {
                Ok(c) => c,
                Err(k) => {
                    proof {
                        lemma_triangles_error_stays(gws, t + 1, n - 2);
                    }
                    return Err(ParseError::new(k, Some(line_no)));
                },
            };
            let b = match parse_corner(ws[t + 1].as_slice()) {
                Ok(c) => c,
                Err(k) => {
                    proof {
                        lemma_triangles_error_stays(gws, t + 1, n - 2);
                    }
                    return Err(ParseError::new(k, Some(line_no)));
                },
            };
            let c = match parse_corner(ws[t + 2].as_slice()) {
                Ok(c) => c,
                Err(k) => {
                    proof {
                        lemma_triangles_error_stays(gws, t + 1, n - 2);
                    }
                    return Err(ParseError::new(k, Some(line_no)));
                },
            };
            tris.push((a, b, c));
            t += 1;
        }
        let mut j: usize = 0;
        while j < tris.len()
            invariant
                j <= tris@.len(),
                with_triangles(*old(faces), tris@.take(j as int), *faces),
            decreases tris@.len() - j,
        {
            let (a, b, c) = tris[j];
            faces.face_verts.push((a.0, b.0, c.0));
            faces.face_tex_coords.push((a.1, b.1, c.1));
            faces.face_normals.push((a.2, b.2, c.2));
            proof {
                let tk = tris@.take(j + 1);
                assert(tk =~= tris@.take(j as int).push(tris@[j as int]));
                assert(faces.face_verts@ =~= old(faces).face_verts@ + tk.map_values(
                    |t: (Corner, Corner, Corner)| (t.0.0, t.1.0, t.2.0),
                ));
                assert(faces.face_tex_coords@ =~= old(faces).face_tex_coords@ + tk.map_values(
                    |t: (Corner, Corner, Corner)| (t.0.1, t.1.1, t.2.1),
                ));
                assert(faces.face_normals@ =~= old(faces).face_normals@ + tk.map_values(
                    |t: (Corner, Corner, Corner)| (t.0.2, t.1.2, t.2.2),
                ));
            }
            j += 1;
        }
        assert(tris@.take(j as int) =~= tris@);
        Ok(true)
    }

    /// The words of a coordinate line of the given kind, for the caller to read
    /// as numbers; `None` for a line of another kind. A wrong number of words is
    /// refused.
    pub fn coordinate_words(kind: CoordinateLine, line: &str, line_no: usize) -> (r: Result<
        Option<Vec<Vec<char>>>,
        ParseError,
    >)
        ensures
            match r {
                Ok(None) => !is_coordinate_line(kind, line@),
                Ok(Some(ws)) => is_coordinate_line(kind, line@) && views(ws@) == line_words(line@)
                    && coordinate_count_error(kind, ws@.len() as int) is None,
                Err(e) => is_coordinate_line(kind, line@) && coordinate_count_error(
                    kind,
                    line_words(line@).len() as int,
                ) == Some(e.kind) && e.line == Some(line_no),
            },
    {
        let chars = chars_of(line);
        let tagged = match kind {
            CoordinateLine::Vertex => chars.len() >= 2 && chars[0] == 'v' && chars[1] == ' ',
            CoordinateLine::Normal => chars.len() >= 3 && chars[0] == 'v' && chars[1] == 'n'
                && chars[2] == ' ',
            CoordinateLine::Texture => chars.len() >= 3 && chars[0] == 'v' && chars[1] == 't'
                && chars[2] == ' ',
        };
        if !tagged {
            return Ok(None);
        }
        let rest = vstd::slice::slice_subrange(chars.as_slice(), 2, chars.len());
        assert(rest@ =~= line@.subrange(2, line@.len() as int));
        let ws = split_words(rest);
        let n = ws.len();
        let err = match kind {
            CoordinateLine::Vertex => if n == 4 {
                Some(ParseErrorKind::NotSupported(UnimplementedFeature::WeightCoordinateOnVertex))
            } else if n != 3 {
                Some(ParseErrorKind::IncorrectNComponents)
            } else {
                None
            },
            CoordinateLine::Normal => if n != 3 {
                Some(ParseErrorKind::IncorrectNComponents)
            } else {
                None
            },
            CoordinateLine::Texture => if n == 1 || n == 3 {
                Some(ParseErrorKind::NotSupported(UnimplementedFeature::TexCoordsNotEqualTo2))
            } else if n != 2 {
                Some(ParseErrorKind::IncorrectNComponents)
            } else {
                None
            },
        };
        match err {
            Some(k) => Err(ParseError::new(k, Some(line_no))),
            None => Ok(Some(ws)),
        }
    }
}

} // verus!
