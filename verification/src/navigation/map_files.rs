//! The map files of the game: their names and their pixels.

use vstd::prelude::*;
use vstd::string::*;

use crate::navigation::walkability::{Tile, TileCost, WalkabilityGrid};
use crate::text::{chars_of, decimal, signed};

verus! {

/// Whether a character is a decimal digit.
pub open spec fn is_digit(c: char) -> bool {
    '0' <= c && c <= '9'
}

/// Whether a text is made of decimal digits.
pub open spec fn all_digits(s: Seq<char>) -> bool {
    forall|i: int| 0 <= i < s.len() ==> is_digit(#[trigger] s[i])
}

/// The number that a text of decimal digits stands for.
pub open spec fn digits_value(s: Seq<char>) -> int
    decreases s.len(),
{
    if s.len() == 0 {
        0
    } else {
        10 * digits_value(s.drop_last()) + (s.last() as int - '0' as int)
    }
}

/// The number that a numeral of the type `i32` stands for: decimal digits, with a sign or
/// without, in the range of the type.
pub open spec fn numeral(s: Seq<char>) -> Option<int> {
    let signed = s.len() > 0 && (s[0] == '-' || s[0] == '+');
    let digits = if signed {
        s.skip(1)
    } else {
        s
    };
    let value = if signed && s[0] == '-' {
        -digits_value(digits)
    } else {
        digits_value(digits)
    };
    if digits.len() > 0 && all_digits(digits) && i32::MIN <= value <= i32::MAX {
        Some(value)
    } else {
        None
    }
}

proof fn numerals_hold_no_underscore(s: Seq<char>, i: int)
    requires
        numeral(s) is Some,
        0 <= i < s.len(),
    ensures
        s[i] != '_',
{
    let signed = s[0] == '-' || s[0] == '+';
    if signed {
        if i > 0 {
            assert(s.skip(1)[i - 1] == s[i]);
        }
    }
}

proof fn value_grows(s: Seq<char>, n: int)
    requires
        all_digits(s),
        0 <= n <= s.len(),
    ensures
        0 <= digits_value(s.take(n)) <= digits_value(s),
    decreases s.len(),
{
    if n == s.len() {
        assert(s.take(n) =~= s);
        if n > 0 {
            value_grows(s.drop_last(), 0);
            assert(is_digit(s.last()));
        }
    } else {
        value_grows(s.drop_last(), n);
        assert(s.drop_last().take(n) =~= s.take(n));
        assert(is_digit(s.last()));
    }
}

/// The value of the numeral that stands in part of a text.
fn parse_numeral(v: &Vec<char>, from: usize, to: usize) -> (r: Option<i32>)
    requires
        from <= to <= v@.len(),
    ensures
        r matches Some(n) ==> numeral(v@.subrange(from as int, to as int)) == Some(n as int),
        r is None ==> numeral(v@.subrange(from as int, to as int)) is None,
{
    let ghost s = v@.subrange(from as int, to as int);
    let mut start: usize = from;
    let mut negative = false;
    if from < to {
        assert(s[0] == v@[from as int]);
        if v[from] == '-' {
            negative = true;
            start = from + 1;
        } else if v[from] == '+' {
            start = from + 1;
        }
    }
    let ghost digits = v@.subrange(start as int, to as int);
    assert(digits =~= if start > from {
        s.skip(1)
    } else {
        s
    });
    if start == to {
        return None;
    }
    let mut value: i64 = 0;
    let mut i: usize = start;
    while i < to
        invariant
            from <= start <= i <= to <= v@.len(),
            digits == v@.subrange(start as int, to as int),
            all_digits(digits.take(i - start)),
            value == digits_value(digits.take(i - start)),
            0 <= value <= 0x1_0000_0000,
            s == v@.subrange(from as int, to as int),
            start > from ==> start == from + 1 && (s[0] == '-' || s[0] == '+'),
            start == from ==> s.len() > 0 && s[0] != '-' && s[0] != '+',
            negative == (start > from && s[0] == '-'),
            digits == (if start > from { s.skip(1) } else { s }),
        decreases to - i,
    {
        let c: char = v[i];
        assert(digits[i - start] == c);
        if c < '0' || c > '9' {
            assert(!is_digit(digits[i - start]));
            return None;
        }
        let d: i64 = (c as u32 - '0' as u32) as i64;
        let next: i64 = value * 10 + d;
        assert(digits.take(i + 1 - start).drop_last() =~= digits.take(i - start));
        assert(next == digits_value(digits.take(i + 1 - start)));
        if next > 0x1_0000_0000 {
            proof {
                if all_digits(digits) {
                    value_grows(digits, i + 1 - start);
                }
            }
            return None;
        }
        value = next;
        i = i + 1;
        assert forall|j: int| 0 <= j < i - start implies is_digit(
            #[trigger] digits.take(i - start)[j],
        ) by {
            if j < i - 1 - start {
                assert(digits.take(i - 1 - start)[j] == digits[j]);
            }
        }
    }
    assert(digits.take(i - start) =~= digits);
    let signed: i64 = if negative {
        -value
    } else {
        value
    };
    if signed < i32::MIN as i64 || signed > i32::MAX as i64 {
        return None;
    }
    Some(signed as i32)
}

/// Whether a file name is that of the map file whose first tile is at the given place.
pub open spec fn names_tile(name: Seq<char>, x: int, y: int, z: int) -> bool {
    exists|a: Seq<char>, b: Seq<char>, c: Seq<char>| #[trigger]
        named_by(name, a, b, c) && numeral(a) == Some(x) && numeral(b) == Some(y) && numeral(c)
            == Some(z)
}

/// Whether a file name is made of the three texts.
pub open spec fn named_by(name: Seq<char>, a: Seq<char>, b: Seq<char>, c: Seq<char>) -> bool {
    name == "Minimap_WaypointCost_"@ + a + seq!['_'] + b + seq!['_'] + c + ".png"@
}

/// The first place from `from` on, before `to`, that holds an underscore; `to` if there is none.
fn underscore(v: &Vec<char>, from: usize, to: usize) -> (r: usize)
    requires
        from <= to <= v@.len(),
    ensures
        from <= r <= to,
        forall|i: int| from <= i < r ==> v@[i] != '_',
        r < to ==> v@[r as int] == '_',
{
    let mut i: usize = from;
    while i < to
        invariant
            from <= i <= to <= v@.len(),
            forall|j: int| from <= j < i ==> v@[j] != '_',
        decreases to - i,
    {
        if v[i] == '_' {
            return i;
        }
        i = i + 1;
    }
    to
}

/// Where the three texts stand in a file name.
proof fn parts(name: Seq<char>, a: Seq<char>, b: Seq<char>, c: Seq<char>)
    requires
        named_by(name, a, b, c),
    ensures
        "Minimap_WaypointCost_"@.len() == 21,
        ".png"@ == seq!['.', 'p', 'n', 'g'],
        name.len() == 27 + a.len() + b.len() + c.len(),
        name.take(21) == "Minimap_WaypointCost_"@,
        name.skip(name.len() - 4) == ".png"@,
        forall|i: int| 0 <= i < a.len() ==> name[21 + i] == #[trigger] a[i],
        name[21int + a.len()] == '_',
        forall|i: int| 0 <= i < b.len() ==> name[22int + a.len() + i] == #[trigger] b[i],
        name[22int + a.len() + b.len()] == '_',
        name.subrange(21, 21int + a.len()) == a,
        name.subrange(22int + a.len(), 22int + a.len() + b.len()) == b,
        name.subrange(23int + a.len() + b.len(), name.len() - 4) == c,
{
    reveal_strlit("Minimap_WaypointCost_");
    reveal_strlit(".png");
    assert(".png"@ =~= seq!['.', 'p', 'n', 'g']);
    assert(name.take(21) =~= "Minimap_WaypointCost_"@);
    assert(name.skip(name.len() - 4) =~= ".png"@);
    assert(name.subrange(21, 21int + a.len()) =~= a);
    assert(name.subrange(22int + a.len(), 22int + a.len() + b.len()) =~= b);
    assert(name.subrange(23int + a.len() + b.len(), name.len() - 4) =~= c);
}

/// A file name with numerals has underscores in two places, and what stands between them are
/// the numerals.
proof fn numerals_stand_apart(
    name: Seq<char>,
    a: Seq<char>,
    b: Seq<char>,
    c: Seq<char>,
    i: int,
    j: int,
)
    requires
        named_by(name, a, b, c),
        numeral(a) is Some,
        numeral(b) is Some,
        21 <= i <= name.len() - 4,
        forall|k: int| 21 <= k < i ==> name[k] != '_',
        i < name.len() - 4 ==> name[i] == '_',
        i < name.len() - 4 ==> i + 1 <= j <= name.len() - 4,
        i < name.len() - 4 ==> forall|k: int| i + 1 <= k < j ==> name[k] != '_',
        i < name.len() - 4 && j < name.len() - 4 ==> name[j] == '_',
    ensures
        i == 21int + a.len(),
        j == 22int + a.len() + b.len(),
{
    parts(name, a, b, c);
    if i < 21int + a.len() {
        numerals_hold_no_underscore(a, i - 21);
        assert(name[21 + (i - 21)] == a[i - 21]);
    }
    if j < 22int + a.len() + b.len() {
        numerals_hold_no_underscore(b, j - 22 - a.len());
        assert(name[22int + a.len() + (j - 22 - a.len())] == b[j - 22 - a.len()]);
    }
}

/// Whether the three texts that make up a file name are numerals.
spec fn numbered(name: Seq<char>, a: Seq<char>, b: Seq<char>, c: Seq<char>) -> bool {
    named_by(name, a, b, c) && numeral(a) is Some && numeral(b) is Some && numeral(c) is Some
}

/// Whether a file name has the right beginning and end, and its two underscores between them.
spec fn splits(name: Seq<char>, i: int, j: int) -> bool {
    &&& name.len() >= 27
    &&& name.take(21) == "Minimap_WaypointCost_"@
    &&& name.skip(name.len() - 4) == ".png"@
    &&& 21 <= i < j < name.len() - 4
    &&& name[i] == '_'
    &&& name[j] == '_'
    &&& forall|k: int| 21 <= k < i ==> name[k] != '_'
    &&& forall|k: int| i + 1 <= k < j ==> name[k] != '_'
}

proof fn splits_into_parts(
    name: Seq<char>,
    i: int,
    j: int,
    a: Seq<char>,
    b: Seq<char>,
    c: Seq<char>,
)
    requires
        splits(name, i, j),
        numbered(name, a, b, c),
    ensures
        a == name.subrange(21, i),
        b == name.subrange(i + 1, j),
        c == name.subrange(j + 1, name.len() - 4),
{
    numerals_stand_apart(name, a, b, c, i, j);
    parts(name, a, b, c);
}

proof fn split_is_named(name: Seq<char>, i: int, j: int)
    requires
        splits(name, i, j),
    ensures
        named_by(
            name,
            name.subrange(21, i),
            name.subrange(i + 1, j),
            name.subrange(j + 1, name.len() - 4),
        ),
{
    reveal_strlit("Minimap_WaypointCost_");
    reveal_strlit(".png");
    let a = name.subrange(21, i);
    let b = name.subrange(i + 1, j);
    let c = name.subrange(j + 1, name.len() - 4);
    let n = name.len() as int;
    assert(name =~= name.take(21) + name.subrange(21, n - 4) + name.skip(n - 4));
    assert(name.subrange(21, n - 4) =~= a + seq!['_'] + b + seq!['_'] + c);
    assert("Minimap_WaypointCost_"@ + (a + seq!['_'] + b + seq!['_'] + c) + ".png"@
        =~= "Minimap_WaypointCost_"@ + a + seq!['_'] + b + seq!['_'] + c + ".png"@);
}

/// Where the two underscores of a file name stand.
fn split_name(name: &str, v: &Vec<char>) -> (r: Option<(usize, usize)>)
    requires
        v@ == name@,
    ensures
        r matches Some(ij) ==> splits(v@, ij.0 as int, ij.1 as int),
        r is None ==> forall|a: Seq<char>, b: Seq<char>, c: Seq<char>| !numbered(v@, a, b, c),
{
    let n: usize = v.len();
    proof {
        reveal_strlit("Minimap_WaypointCost_");
        assert forall|a: Seq<char>, b: Seq<char>, c: Seq<char>| numbered(v@, a, b, c) implies v@.len()
            >= 27 && v@.take(21) == "Minimap_WaypointCost_"@ && v@.skip(v@.len() - 4)
            == ".png"@ by {
            parts(v@, a, b, c);
        }
    }
    if n < 27 || !crate::text::starts_with(name, "Minimap_WaypointCost_") {
        assert(v@.len() >= 21 ==> v@.take(21) =~= v@.subrange(0, 21));
        return None;
    }
    let end: usize = n - 4;
    let ghost tail = v@.skip(v@.len() - 4);
    proof {
        reveal_strlit(".png");
        assert(tail[0] == v@[end as int] && tail[1] == v@[end + 1] && tail[2] == v@[end + 2]
            && tail[3] == v@[end + 3]);
    }
    if v[end] != '.' || v[end + 1] != 'p' || v[end + 2] != 'n' || v[end + 3] != 'g' {
        return None;
    }
    assert(tail =~= ".png"@);
    assert(v@.take(21) =~= "Minimap_WaypointCost_"@);
    let i: usize = underscore(v, 21, end);
    if i == end {
        proof {
            assert forall|a: Seq<char>, b: Seq<char>, c: Seq<char>| !numbered(v@, a, b, c) by {
                if numbered(v@, a, b, c) {
                    numerals_stand_apart(v@, a, b, c, i as int, i + 1);
                    parts(v@, a, b, c);
                }
            }
        }
        return None;
    }
    let j: usize = underscore(v, i + 1, end);
    if j == end {
        proof {
            assert forall|a: Seq<char>, b: Seq<char>, c: Seq<char>| !numbered(v@, a, b, c) by {
                if numbered(v@, a, b, c) {
                    numerals_stand_apart(v@, a, b, c, i as int, j as int);
                    parts(v@, a, b, c);
                }
            }
        }
        return None;
    }
    Some((i, j))
}

/// A file name stands for one place at most.
pub proof fn name_stands_for_one_place(
    name: Seq<char>,
    x: int,
    y: int,
    z: int,
    u: int,
    v: int,
    w: int,
)
    requires
        names_tile(name, x, y, z),
        names_tile(name, u, v, w),
    ensures
        x == u,
        y == v,
        z == w,
{
    let (a, b, c) = choose|a: Seq<char>, b: Seq<char>, c: Seq<char>| #[trigger]
        named_by(name, a, b, c) && numeral(a) == Some(x) && numeral(b) == Some(y) && numeral(c)
            == Some(z);
    let (d, e, f) = choose|a: Seq<char>, b: Seq<char>, c: Seq<char>| #[trigger]
        named_by(name, a, b, c) && numeral(a) == Some(u) && numeral(b) == Some(v) && numeral(c)
            == Some(w);
    parts(name, a, b, c);
    parts(name, d, e, f);
    let i = 21int + a.len();
    let j = 22int + a.len() + b.len();
    assert forall|k: int| 21 <= k < i implies name[k] != '_' by {
        numerals_hold_no_underscore(a, k - 21);
        assert(name[21 + (k - 21)] == a[k - 21]);
    }
    assert forall|k: int| i + 1 <= k < j implies name[k] != '_' by {
        numerals_hold_no_underscore(b, k - 22 - a.len());
        assert(name[22int + a.len() + (k - 22 - a.len())] == b[k - 22 - a.len()]);
    }
    numerals_stand_apart(name, d, e, f, i, j);
    assert(a =~= d);
    assert(b =~= e);
    assert(c =~= f);
}

impl WalkabilityGrid {
    /// The place of the first tile of the map file with the given name.
    pub fn parse_filename(filename: &str) -> (r: Option<Tile>)
        ensures
            r matches Some(t) ==> names_tile(filename@, t.0 as int, t.1 as int, t.2 as int),
            r is None ==> forall|x: int, y: int, z: int| !names_tile(filename@, x, y, z),
    {
        let v: Vec<char> = chars_of(filename);
        let (i, j) = match split_name(filename, &v) {
            Some(ij) => ij,
            None => {
                proof {
                    assert forall|x: int, y: int, z: int| !names_tile(filename@, x, y, z) by {
                        if names_tile(filename@, x, y, z) {
                            let (a, b, c) = choose|a: Seq<char>, b: Seq<char>, c: Seq<char>|
                                #[trigger]
                                named_by(filename@, a, b, c) && numeral(a) == Some(x) && numeral(b)
                                    == Some(y) && numeral(c) == Some(z);
                            assert(numbered(v@, a, b, c));
                        }
                    }
                }
                return None;
            },
        };
        let end: usize = v.len() - 4;
        let ghost a = v@.subrange(21, i as int);
        let ghost b = v@.subrange(i + 1, j as int);
        let ghost c = v@.subrange(j + 1, end as int);
        let x = parse_numeral(&v, 21, i);
        let y = parse_numeral(&v, i + 1, j);
        let z = parse_numeral(&v, j + 1, end);
        proof {
            split_is_named(v@, i as int, j as int);
        }
        if let (Some(x), Some(y), Some(z)) = (x, y, z) {
            return Some((x, y, z));
        }
        proof {
            assert forall|x: int, y: int, z: int| !names_tile(filename@, x, y, z) by {
                if names_tile(filename@, x, y, z) {
                    let (d, e, f) = choose|d: Seq<char>, e: Seq<char>, f: Seq<char>| #[trigger]
                        named_by(filename@, d, e, f) && numeral(d) == Some(x) && numeral(e) == Some(
                            y,
                        ) && numeral(f) == Some(z);
                    assert(numbered(v@, d, e, f));
                    splits_into_parts(v@, i as int, j as int, d, e, f);
                }
            }
        }
        None
    }
}

/// The width and height of a map file.
pub const MAP_SIDE: u32 = 256;

/// Why a map file was not taken in.
#[derive(Clone, Copy, Debug, PartialEq, Eq, Structural)]
pub enum MapFileError {
    /// It is no image that can be read.
    Unreadable,
    /// It does not have the size of a map file.
    WrongSize { width: u32, height: u32 },
}

/// What a PNG file shows: its width, its height, and its pixels, row by row, each with its
/// red, green, blue and alpha; or why it cannot be read.
pub uninterp spec fn png_pixels(png: Seq<u8>) -> Result<(u32, u32, Seq<u8>), Seq<char>>;

/// `image::load_from_memory_with_format` with `ImageFormat::Png`, then
/// `DynamicImage::to_rgba8`: what the file shows, or why it cannot be read. There are at least
/// four bytes for each pixel.
#[verifier::external_body]
fn read_png(png: &[u8]) -> (r: Result<(u32, u32, Vec<u8>), String>)
    ensures
        (r is Ok) == (png_pixels(png@) is Ok),
        r is Ok ==> (r->Ok_0.0, r->Ok_0.1, r->Ok_0.2@) == png_pixels(png@)->Ok_0,
        r is Err ==> r->Err_0@ == png_pixels(png@)->Err_0,
        r is Ok ==> r->Ok_0.2@.len() >= 4 * r->Ok_0.0 * r->Ok_0.1,
{
    match image::load_from_memory_with_format(png, image::ImageFormat::Png) {
        Ok(image) => {
            let rgba = image.to_rgba8();
            Ok((rgba.width(), rgba.height(), rgba.into_raw()))
        },
        Err(e) => Err(e.to_string()),
    }
}

/// The cost that a pixel stands for: yellow is a wall, a grey in the range of costs is that
/// cost, and every other pixel stands for an unknown tile.
pub open spec fn pixel_cost(r: u8, g: u8, b: u8, a: u8) -> Option<TileCost> {
    if a == 0 {
        None
    } else if r == 255 && g == 255 && b == 0 {
        Some(255)
    } else if r == g && g == b && 90 <= r <= 213 {
        Some(r)
    } else {
        None
    }
}

/// The cost that the pixel at place `k` stands for.
pub open spec fn cost_at(rgba: Seq<u8>, k: int) -> Option<TileCost> {
    pixel_cost(rgba[4 * k], rgba[4 * k + 1], rgba[4 * k + 2], rgba[4 * k + 3])
}

/// The place of the pixel that stands for a tile.
pub open spec fn pixel_of(t: Tile, first: Tile) -> int {
    (t.1 - first.1) * 256 + (t.0 - first.0)
}

/// Whether a tile lies in the map file whose first tile is `first`.
pub open spec fn in_file(t: Tile, first: Tile) -> bool {
    t.2 == first.2 && 0 <= t.0 - first.0 < 256 && 0 <= t.1 - first.1 < 256
}

/// Whether one of the first `n` pixels of a map file gives the cost of a tile.
pub open spec fn shown(rgba: Seq<u8>, t: Tile, first: Tile, n: int) -> bool {
    in_file(t, first) && pixel_of(t, first) < n && cost_at(rgba, pixel_of(t, first)) is Some
}

/// The costs after the first `n` pixels of a map file were taken in.
pub open spec fn painted(
    tiles: Map<Tile, TileCost>,
    rgba: Seq<u8>,
    first: Tile,
    n: int,
) -> Map<Tile, TileCost> {
    Map::new(
        |t: Tile| tiles.contains_key(t) || shown(rgba, t, first, n),
        |t: Tile|
            if shown(rgba, t, first, n) {
                cost_at(rgba, pixel_of(t, first))->Some_0
            } else {
                tiles[t]
            },
    )
}

/// How many of the first `n` pixels stand for a known tile.
pub open spec fn known_pixels(rgba: Seq<u8>, n: int) -> int
    decreases n,
{
    if n <= 0 {
        0
    } else {
        known_pixels(rgba, n - 1) + if cost_at(rgba, n - 1) is Some {
            1int
        } else {
            0
        }
    }
}

/// One more than a count, which stays where it is at its end.
pub open spec fn one_more(n: u32) -> u32 {
    if n == u32::MAX {
        n
    } else {
        (n + 1) as u32
    }
}

fn cost_of_pixel(r: u8, g: u8, b: u8, a: u8) -> (cost: Option<TileCost>)
    ensures
        cost == pixel_cost(r, g, b, a),
{
    if a == 0 {
        None
    } else if r == 255 && g == 255 && b == 0 {
        Some(255)
    } else if r == g && g == b && 90 <= r && r <= 213 {
        Some(r)
    } else {
        None
    }
}

impl WalkabilityGrid {
    /// Takes in the pixels of a map file whose first tile is at the given place; returns how
    /// many of them stand for a known tile. A pixel beyond the last coordinate stands for no place.
    pub fn add_pixels(&mut self, rgba: &[u8], fx: i32, fy: i32, fz: i32) -> (r: u32)
        requires
            old(self).wf(),
            rgba@.len() >= 262144,
        ensures
            final(self).wf(),
            final(self).tiles() == painted(old(self).tiles(), rgba@, (fx, fy, fz), 65536),
            final(self).transitions() == old(self).transitions(),
            final(self).files() == one_more(old(self).files()),
            r == known_pixels(rgba@, 65536),
    {
        let ghost first: Tile = (fx, fy, fz);
        let ghost tiles = self.tiles();
        let mut count: u32 = 0;
        let mut k: usize = 0;
        assert(self.tiles() =~= painted(tiles, rgba@, first, 0));
        while k < 65536
            invariant
                k <= 65536,
                self.wf(),
                rgba@.len() >= 262144,
                first == (fx, fy, fz),
                self.tiles() == painted(tiles, rgba@, first, k as int),
                self.transitions() == old(self).transitions(),
                self.files() == old(self).files(),
                count == known_pixels(rgba@, k as int),
                count <= k,
            decreases 65536 - k,
        {
            let cost = cost_of_pixel(rgba[4 * k], rgba[4 * k + 1], rgba[4 * k + 2], rgba[4 * k + 3]);
            let px: i32 = (k % 256) as i32;
            let py: i32 = (k / 256) as i32;
            let there = fx <= i32::MAX - px && fy <= i32::MAX - py;
            let ghost t: Tile = ((fx + px) as i32, (fy + py) as i32, fz);
            proof {
                assert(there ==> in_file(t, first) && pixel_of(t, first) == k);
                assert forall|u: Tile| in_file(u, first) && pixel_of(u, first) == k implies there
                    && u == t by {
                    let du = u.0 - first.0;
                    let dv = u.1 - first.1;
                    assert(dv * 256 + du == k);
                    assert(dv == k as int / 256);
                    assert(du == k as int % 256);
                }
            }
            if let Some(c) = cost {
                if there {
                    self.set_tile(fx + px, fy + py, fz, c);
                }
                count = count + 1;
            }
            proof {
                assert(cost == cost_at(rgba@, k as int));
                assert forall|u: Tile|
                    shown(rgba@, u, first, k + 1) == (shown(rgba@, u, first, k as int) || (there
                        && u == t && cost is Some)) by {}
                assert(self.tiles() =~= painted(tiles, rgba@, first, k + 1));
            }
            k = k + 1;
        }
        let files: u32 = self.files_loaded();
        self.set_files_loaded(files.saturating_add(1));
        count
    }

    /// Takes in a map file whose first tile is at the given place; returns how many of its
    /// pixels stand for a known tile.
    pub fn load_png(&mut self, png: &[u8], fx: i32, fy: i32, fz: i32) -> (r: Result<
        u32,
        MapFileError,
    >)
        requires
            old(self).wf(),
        ensures
            final(self).wf(),
            r == match png_pixels(png@) {
                Err(_) => Err(MapFileError::Unreadable),
                Ok(image) => if image.0 != MAP_SIDE || image.1 != MAP_SIDE {
                    Err(MapFileError::WrongSize { width: image.0, height: image.1 })
                } else {
                    Ok(known_pixels(image.2, 65536) as u32)
                },
            },
            r is Err ==> *final(self) == *old(self),
            r is Ok ==> {
                &&& final(self).tiles() == painted(
                    old(self).tiles(),
                    png_pixels(png@)->Ok_0.2,
                    (fx, fy, fz),
                    65536,
                )
                &&& final(self).transitions() == old(self).transitions()
                &&& final(self).files() == one_more(old(self).files())
            },
    {
        match read_png(png) {
            Ok((width, height, rgba)) => {
                if width != MAP_SIDE || height != MAP_SIDE {
                    Err(MapFileError::WrongSize { width, height })
                } else {
                    assert(4 * width * height == 262144) by (nonlinear_arith)
                        requires
                            width == 256,
                            height == 256,
                    ;
                    Ok(self.add_pixels(rgba.as_slice(), fx, fy, fz))
                }
            },
            Err(_) => Err(MapFileError::Unreadable),
        }
    }
}

/// Whether a map file of a floor is asked for; every one is if none is named.
pub fn wants_floor(floors: &[i32], floor: i32) -> (r: bool)
    ensures
        r == (floors@.len() == 0 || floors@.contains(floor)),
{
    if floors.len() == 0 {
        return true;
    }
    let mut i: usize = 0;
    while i < floors.len()
        invariant
            i <= floors@.len(),
            floors@.len() > 0,
            forall|j: int| 0 <= j < i ==> floors@[j] != floor,
        decreases floors@.len() - i,
    {
        if floors[i] == floor {
            return true;
        }
        i = i + 1;
    }
    false
}

/// The place of the first tile of a map file that is asked for: its name is that of a map file,
/// and its floor is one of those that are named, if any is.
pub fn wanted_file(name: &str, floors: &[i32]) -> (r: Option<Tile>)
    ensures
        r matches Some(t) ==> names_tile(name@, t.0 as int, t.1 as int, t.2 as int) && (
        floors@.len() == 0 || floors@.contains(t.2)),
        r is None ==> forall|t: Tile|
            #[trigger] names_tile(name@, t.0 as int, t.1 as int, t.2 as int) ==> floors@.len() > 0
                && !floors@.contains(t.2),
{
    match WalkabilityGrid::parse_filename(name) {
        Some(t) => {
            if wants_floor(floors, t.2) {
                Some(t)
            } else {
                proof {
                    assert forall|other: Tile|
                        #[trigger]
                        names_tile(
                            name@,
                            other.0 as int,
                            other.1 as int,
                            other.2 as int,
                        ) implies other.2 == t.2 by {
                        name_stands_for_one_place(
                            name@,
                            t.0 as int,
                            t.1 as int,
                            t.2 as int,
                            other.0 as int,
                            other.1 as int,
                            other.2 as int,
                        );
                    }
                }
                None
            }
        },
        None => None,
    }
}

/// A pixel shows a wall exactly if it is pure yellow and not transparent, and a cost exactly if
/// it is a gray between the lightest and the darkest of the scale and not transparent: the gray's
/// own level. Every other pixel shows nothing.
pub proof fn grays_are_costs_and_yellow_is_a_wall(r: u8, g: u8, b: u8, a: u8, cost: TileCost)
    ensures
        (pixel_cost(r, g, b, a) == Some(cost)) == (a > 0 && ((cost == 255 && r == 255 && g == 255
            && b == 0) || (90 <= cost <= 213 && r == cost && g == cost && b == cost))),
{
}

/// The pixel at a column and a row of a file is the tile as far east and as far south of the
/// file's first tile, on the same floor. Where it shows a cost, the tile has that cost;
/// everywhere else the tiles stay as they were.
pub proof fn each_pixel_paints_its_own_tile(
    tiles: Map<Tile, TileCost>,
    rgba: Seq<u8>,
    first: Tile,
    col: int,
    row: int,
    t: Tile,
)
    requires
        0 <= col < 256,
        0 <= row < 256,
        t.0 == first.0 + col,
        t.1 == first.1 + row,
        t.2 == first.2,
    ensures
        ({
            let k = 4 * (256 * row + col);
            match pixel_cost(rgba[k], rgba[k + 1], rgba[k + 2], rgba[k + 3]) {
                Some(cost) => painted(tiles, rgba, first, 65536).contains_key(t) && painted(
                    tiles,
                    rgba,
                    first,
                    65536,
                )[t] == cost,
                None => painted(tiles, rgba, first, 65536).contains_key(t) == tiles.contains_key(t)
                    && (tiles.contains_key(t) ==> painted(tiles, rgba, first, 65536)[t]
                    == tiles[t]),
            }
        }),
{
    assert(pixel_of(t, first) == 256 * row + col);
}

/// A tile that lies outside a file, or on another floor, stays as it was.
pub proof fn tiles_outside_a_file_stay(
    tiles: Map<Tile, TileCost>,
    rgba: Seq<u8>,
    first: Tile,
    t: Tile,
)
    requires
        t.2 != first.2 || t.0 < first.0 || t.0 >= first.0 + 256 || t.1 < first.1 || t.1 >= first.1
            + 256,
    ensures
        painted(tiles, rgba, first, 65536).contains_key(t) == tiles.contains_key(t),
        tiles.contains_key(t) ==> painted(tiles, rgba, first, 65536)[t] == tiles[t],
{
}

/// Each pixel that shows something counts once.
pub proof fn each_pixel_counts_once(rgba: Seq<u8>, n: int)
    requires
        n >= 0,
    ensures
        known_pixels(rgba, 0) == 0,
        known_pixels(rgba, n + 1) == known_pixels(rgba, n) + (if pixel_cost(
            rgba[4 * n],
            rgba[4 * n + 1],
            rgba[4 * n + 2],
            rgba[4 * n + 3],
        ) is Some {
            1int
        } else {
            0
        }),
{
}

proof fn digits_are_read(n: nat)
    ensures
        all_digits(decimal(n)),
        digits_value(decimal(n)) == n,
        decimal(n).len() > 0,
    decreases n,
{
    reveal_with_fuel(digits_value, 2);
    if n >= 10 {
        digits_are_read(n / 10);
        let before = decimal(n / 10);
        assert(decimal(n).drop_last() =~= before);
        assert forall|i: int| 0 <= i < decimal(n).len() implies is_digit(
            #[trigger] decimal(n)[i],
        ) by {
            if i < before.len() {
                assert(decimal(n)[i] == before[i]);
            }
        }
    } else {
        assert(decimal(n) =~= seq![crate::text::digit_char(n)]);
        assert(decimal(n).drop_last() =~= Seq::<char>::empty());
        assert(decimal(n).last() == crate::text::digit_char(n));
    }
}

/// A number that is written with its sign is read back, and so is one with a plus sign; nothing is
/// read from no digits or from what is no digit.
pub proof fn a_written_number_is_read_back(n: int, s: Seq<char>, i: int)
    requires
        i32::MIN <= n <= i32::MAX,
    ensures
        numeral(signed(n)) == Some(n),
        n >= 0 ==> numeral(seq!['+'] + decimal(n as nat)) == Some(n),
        numeral(Seq::empty()) is None,
        1 <= i < s.len() && !('0' <= s[i] <= '9') ==> numeral(s) is None,
        0 < s.len() && s[0] != '-' && s[0] != '+' && !('0' <= s[0] <= '9') ==> numeral(s) is None,
{
    reveal_strlit("-");
    if n < 0 {
        digits_are_read((-n) as nat);
        assert(signed(n).skip(1) =~= decimal((-n) as nat));
        assert(signed(n)[0] == '-');
    } else {
        digits_are_read(n as nat);
        assert(is_digit(decimal(n as nat)[0]));
        let plus = seq!['+'] + decimal(n as nat);
        assert(plus.skip(1) =~= decimal(n as nat));
    }
    if 1 <= i < s.len() && !('0' <= s[i] <= '9') {
        if s[0] == '-' || s[0] == '+' {
            assert(s.skip(1)[i - 1] == s[i]);
        }
        assert(!is_digit(s[i]));
    }
    if 0 < s.len() && s[0] != '-' && s[0] != '+' && !('0' <= s[0] <= '9') {
        assert(!is_digit(s[0]));
    }
}

/// The name of a file that is written from a place names that place and no other.
pub proof fn a_written_name_names_its_place(x: i32, y: i32, z: i32)
    ensures
        names_tile(
            "Minimap_WaypointCost_"@ + signed(x as int) + seq!['_'] + signed(y as int) + seq!['_']
                + signed(z as int) + ".png"@,
            x as int,
            y as int,
            z as int,
        ),
{
    a_written_number_is_read_back(x as int, Seq::empty(), 0);
    a_written_number_is_read_back(y as int, Seq::empty(), 0);
    a_written_number_is_read_back(z as int, Seq::empty(), 0);
    let name = "Minimap_WaypointCost_"@ + signed(x as int) + seq!['_'] + signed(y as int)
        + seq!['_'] + signed(z as int) + ".png"@;
    assert(named_by(name, signed(x as int), signed(y as int), signed(z as int)));
}

} // verus!
