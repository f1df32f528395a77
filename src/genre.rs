use vstd::prelude::*;

verus! {

/// The closed set of genres a user can ask for. `Unknown` stands for text
/// that names none of them and is never stored.
#[derive(Debug, Clone, Copy, PartialEq, Eq, Structural)]
pub enum GenreTypes {
    Unknown,
    Pop,
    Rock,
    Metal,
}

/// A stored genre preference row.
#[derive(Debug, Clone, Copy, PartialEq, Eq, Structural)]
pub struct Genre {
    pub name: GenreTypes,
}

/// Request body naming one genre.
pub struct GenrePayload {
    pub genre: String,
}

/// Request body naming several genres.
pub struct GenresPayload {
    pub genres: Vec<String>,
}

/// Why free text could not be turned into a genre.
#[derive(Debug, Clone, Copy, PartialEq, Eq, Structural)]
pub enum GenreError {
    /// The text at this position of the input names no known genre.
    Unrecognised(usize),
}

pub open spec fn is_ascii_upper(c: char) -> bool {
    65 <= (c as u32) && (c as u32) <= 90
}

/// Two characters are equal once ASCII upper case is folded to lower case.
pub open spec fn chars_match_ignoring_case(a: char, b: char) -> bool {
    ||| a == b
    ||| (is_ascii_upper(a) && (a as u32) + 32 == (b as u32))
    ||| (is_ascii_upper(b) && (b as u32) + 32 == (a as u32))
}

/// ASCII case-insensitive equality of two texts.
pub open spec fn eq_ignoring_case(a: Seq<char>, b: Seq<char>) -> bool {
    &&& a.len() == b.len()
    &&& forall|i: int| 0 <= i < a.len() ==> chars_match_ignoring_case(#[trigger] a[i], b[i])
}

pub open spec fn pop_text() -> Seq<char> {
    seq!['p', 'o', 'p']
}

pub open spec fn rock_text() -> Seq<char> {
    seq!['r', 'o', 'c', 'k']
}

pub open spec fn metal_text() -> Seq<char> {
    seq!['m', 'e', 't', 'a', 'l']
}

pub open spec fn unknown_text() -> Seq<char> {
    seq!['u', 'n', 'k', 'n', 'o', 'w', 'n']
}

/// The genre that free text names, ignoring ASCII case; `Unknown` when it
/// names none.
pub open spec fn genre_of_text(s: Seq<char>) -> GenreTypes {
    if eq_ignoring_case(s, pop_text()) {
        GenreTypes::Pop
    } else if eq_ignoring_case(s, rock_text()) {
        GenreTypes::Rock
    } else if eq_ignoring_case(s, metal_text()) {
        GenreTypes::Metal
    } else {
        GenreTypes::Unknown
    }
}

/// The lower-case name under which a genre is stored.
pub open spec fn genre_text(g: GenreTypes) -> Seq<char> {
    match g {
        GenreTypes::Unknown => unknown_text(),
        GenreTypes::Pop => pop_text(),
        GenreTypes::Rock => rock_text(),
        GenreTypes::Metal => metal_text(),
    }
}

fn chars_match(a: char, b: char) -> (r: bool)
    ensures
        r == chars_match_ignoring_case(a, b),
{
    let x: u32 = a as u32;
    let y: u32 = b as u32;
    x == y || (65 <= x && x <= 90 && x + 32 == y) || (65 <= y && y <= 90 && y + 32 == x)
}

/// ASCII case-insensitive comparison of two texts.
pub fn eq_ignore_ascii_case(a: &str, b: &str) -> (r: bool)
    ensures
        r == eq_ignoring_case(a@, b@),
{
    let n: usize = a.unicode_len();
    if n != b.unicode_len() {
        return false;
    }
    let mut i: usize = 0;
    while i < n
        invariant
            n == a@.len(),
            n == b@.len(),
            i <= n,
            forall|j: int| 0 <= j < i ==> chars_match_ignoring_case(#[trigger] a@[j], b@[j]),
        decreases n - i,
    {
        if !chars_match(a.get_char(i), b.get_char(i)) {
            return false;
        }
        i = i + 1;
    }
    true
}

impl GenreTypes {
    /// Reads a genre from free text, ignoring ASCII case; text that names no
    /// genre gives `Unknown`.
    pub fn from_text(s: &str) -> (r: GenreTypes)
        ensures
            r == genre_of_text(s@),
    {
        proof {
            reveal_strlit("pop");
            reveal_strlit("rock");
            reveal_strlit("metal");
        }
        assert("pop"@ == pop_text());
        assert("rock"@ == rock_text());
        assert("metal"@ == metal_text());
        if eq_ignore_ascii_case(s, "pop") {
            GenreTypes::Pop
        } else if eq_ignore_ascii_case(s, "rock") {
            GenreTypes::Rock
        } else if eq_ignore_ascii_case(s, "metal") {
            GenreTypes::Metal
        } else {
            GenreTypes::Unknown
        }
    }

    /// The stored lower-case name of the genre.
    pub fn name(&self) -> (r: String)
        ensures
            r@ == genre_text(*self),
    {
        proof {
            reveal_strlit("unknown");
            reveal_strlit("pop");
            reveal_strlit("rock");
            reveal_strlit("metal");
        }
        match self {
            GenreTypes::Unknown => String::from_str("unknown"),
            GenreTypes::Pop => String::from_str("pop"),
            GenreTypes::Rock => String::from_str("rock"),
            GenreTypes::Metal => String::from_str("metal"),
        }
    }
}

impl GenresPayload {
    /// The genres the payload names, in order; the first text that names no
    /// genre is refused with its position, so `Unknown` is never stored.
    pub fn to_genres(&self) -> (r: Result<Vec<GenreTypes>, GenreError>)
        ensures
            r matches Ok(v) ==> v@.len() == self.genres@.len() && forall|i: int|
                0 <= i < v@.len() ==> #[trigger] v@[i] == genre_of_text(self.genres@[i]@) && v@[i]
                    != GenreTypes::Unknown,
            r matches Err(GenreError::Unrecognised(k)) ==> k < self.genres@.len() && genre_of_text(
                self.genres@[k as int]@,
            ) == GenreTypes::Unknown && forall|i: int|
                0 <= i < k ==> genre_of_text(#[trigger] self.genres@[i]@) != GenreTypes::Unknown,
            r is Ok <==> forall|i: int|
                0 <= i < self.genres@.len() ==> genre_of_text(#[trigger] self.genres@[i]@)
                    != GenreTypes::Unknown,
    {
        let mut out: Vec<GenreTypes> = Vec::new();
        let mut i: usize = 0;
        while i < self.genres.len()
            invariant
                i <= self.genres@.len(),
                out@.len() == i,
                forall|j: int|
                    #![trigger out@[j]]
                    #![trigger self.genres@[j]]
                    0 <= j < i ==> out@[j] == genre_of_text(self.genres@[j]@) && out@[j]
                        != GenreTypes::Unknown,
            decreases self.genres@.len() - i,
        {
            let g = GenreTypes::from_text(self.genres[i].as_str());
            if g == GenreTypes::Unknown {
                return Err(GenreError::Unrecognised(i));
            }
            out.push(g);
            i = i + 1;
        }
        Ok(out)
    }
}

impl From<String> for GenreTypes {
    fn from(value: String) -> (r: GenreTypes) {
        GenreTypes::from_text(value.as_str())
    }
}

impl vstd::std_specs::convert::FromSpecImpl<String> for GenreTypes {
    open spec fn obeys_from_spec() -> bool {
        true
    }

    open spec fn from_spec(v: String) -> GenreTypes {
        genre_of_text(v@)
    }
}

} // verus!
