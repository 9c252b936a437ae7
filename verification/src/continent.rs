//! Continents by country code.
use vstd::prelude::*;

use crate::text::chars_of;

verus! {

/// The continent of an ISO 3166 alpha-2 country code. Covers UN members and
/// common territories; every other text falls under "Other".
pub open spec fn continent_name(cc: Seq<char>) -> Seq<char> {
    if cc.len() != 2 {
        "Other"@
    } else {
        match (cc[0], cc[1]) {
            ('A', 'L') | ('A', 'D') | ('A', 'T') | ('B', 'Y') | ('B', 'E') | ('B', 'A')
            | ('B', 'G') | ('H', 'R') | ('C', 'Z') | ('D', 'K') | ('E', 'E')
            | ('F', 'O') | ('F', 'I') | ('F', 'R') | ('D', 'E') | ('G', 'I')
            | ('G', 'R') | ('H', 'U') | ('I', 'S') | ('I', 'E') | ('I', 'M')
            | ('I', 'T') | ('X', 'K') | ('L', 'V') | ('L', 'I') | ('L', 'T')
            | ('L', 'U') | ('M', 'T') | ('M', 'D') | ('M', 'C') | ('M', 'E')
            | ('N', 'L') | ('M', 'K') | ('N', 'O') | ('P', 'L') | ('P', 'T')
            | ('R', 'O') | ('R', 'U') | ('S', 'M') | ('R', 'S') | ('S', 'K')
            | ('S', 'I') | ('E', 'S') | ('S', 'E') | ('C', 'H') | ('U', 'A')
            | ('G', 'B') | ('V', 'A') | ('J', 'E') | ('G', 'G') => "Europe"@,
            ('D', 'Z') | ('A', 'O') | ('B', 'J') | ('B', 'W') | ('B', 'F') | ('B', 'I')
            | ('C', 'M') | ('C', 'V') | ('C', 'F') | ('T', 'D') | ('K', 'M')
            | ('C', 'G') | ('C', 'D') | ('C', 'I') | ('D', 'J') | ('E', 'G')
            | ('G', 'Q') | ('E', 'R') | ('S', 'Z') | ('E', 'T') | ('G', 'A')
            | ('G', 'M') | ('G', 'H') | ('G', 'N') | ('G', 'W') | ('K', 'E')
            | ('L', 'S') | ('L', 'R') | ('L', 'Y') | ('M', 'G') | ('M', 'W')
            | ('M', 'L') | ('M', 'R') | ('M', 'U') | ('M', 'A') | ('M', 'Z')
            | ('N', 'A') | ('N', 'E') | ('N', 'G') | ('R', 'W') | ('S', 'T')
            | ('S', 'N') | ('S', 'C') | ('S', 'L') | ('S', 'O') | ('Z', 'A')
            | ('S', 'S') | ('S', 'D') | ('T', 'Z') | ('T', 'G') | ('T', 'N')
            | ('U', 'G') | ('E', 'H') | ('Z', 'M') | ('Z', 'W') => "Africa"@,
            ('A', 'F') | ('A', 'M') | ('A', 'Z') | ('B', 'H') | ('B', 'D') | ('B', 'T')
            | ('B', 'N') | ('K', 'H') | ('C', 'N') | ('C', 'Y') | ('G', 'E')
            | ('H', 'K') | ('I', 'N') | ('I', 'D') | ('I', 'R') | ('I', 'Q')
            | ('I', 'L') | ('J', 'P') | ('J', 'O') | ('K', 'Z') | ('K', 'W')
            | ('K', 'G') | ('L', 'A') | ('L', 'B') | ('M', 'O') | ('M', 'Y')
            | ('M', 'V') | ('M', 'N') | ('M', 'M') | ('N', 'P') | ('K', 'P')
            | ('O', 'M') | ('P', 'K') | ('P', 'S') | ('P', 'H') | ('Q', 'A')
            | ('S', 'A') | ('S', 'G') | ('K', 'R') | ('L', 'K') | ('S', 'Y')
            | ('T', 'W') | ('T', 'J') | ('T', 'H') | ('T', 'L') | ('T', 'R')
            | ('T', 'M') | ('A', 'E') | ('U', 'Z') | ('V', 'N') | ('Y', 'E') => "Asia"@,
            ('A', 'G') | ('B', 'S') | ('B', 'B') | ('B', 'Z') | ('C', 'A') | ('C', 'R')
            | ('C', 'U') | ('D', 'M') | ('D', 'O') | ('S', 'V') | ('G', 'D')
            | ('G', 'T') | ('H', 'T') | ('H', 'N') | ('J', 'M') | ('M', 'X')
            | ('N', 'I') | ('P', 'A') | ('K', 'N') | ('L', 'C') | ('V', 'C')
            | ('T', 'T') | ('U', 'S') | ('P', 'R') | ('G', 'L') | ('B', 'M') => "North America"@,
            ('A', 'R') | ('B', 'O') | ('B', 'R') | ('C', 'L') | ('C', 'O') | ('E', 'C')
            | ('F', 'K') | ('G', 'F') | ('G', 'Y') | ('P', 'Y') | ('P', 'E')
            | ('S', 'R') | ('U', 'Y') | ('V', 'E') => "South America"@,
            ('A', 'U') | ('F', 'J') | ('P', 'F') | ('G', 'U') | ('K', 'I') | ('M', 'H')
            | ('F', 'M') | ('N', 'R') | ('N', 'C') | ('N', 'Z') | ('P', 'W')
            | ('P', 'G') | ('W', 'S') | ('S', 'B') | ('T', 'O') | ('T', 'V')
            | ('V', 'U') => "Oceania"@,
            _ => "Other"@,
        }
    }
}

/// The continent of an ISO 3166 alpha-2 country code.
pub fn continent_of(cc: &str) -> (r: &'static str)
    ensures
        r@ == continent_name(cc@),
{
    let letters = chars_of(cc);
    if letters.len() != 2 {
        return "Other";
    }
    match (letters[0], letters[1]) {
        ('A', 'L') | ('A', 'D') | ('A', 'T') | ('B', 'Y') | ('B', 'E') | ('B', 'A')
        | ('B', 'G') | ('H', 'R') | ('C', 'Z') | ('D', 'K') | ('E', 'E') | ('F', 'O')
        | ('F', 'I') | ('F', 'R') | ('D', 'E') | ('G', 'I') | ('G', 'R') | ('H', 'U')
        | ('I', 'S') | ('I', 'E') | ('I', 'M') | ('I', 'T') | ('X', 'K') | ('L', 'V')
        | ('L', 'I') | ('L', 'T') | ('L', 'U') | ('M', 'T') | ('M', 'D') | ('M', 'C')
        | ('M', 'E') | ('N', 'L') | ('M', 'K') | ('N', 'O') | ('P', 'L') | ('P', 'T')
        | ('R', 'O') | ('R', 'U') | ('S', 'M') | ('R', 'S') | ('S', 'K') | ('S', 'I')
        | ('E', 'S') | ('S', 'E') | ('C', 'H') | ('U', 'A') | ('G', 'B') | ('V', 'A')
        | ('J', 'E') | ('G', 'G') => "Europe",
        ('D', 'Z') | ('A', 'O') | ('B', 'J') | ('B', 'W') | ('B', 'F') | ('B', 'I')
        | ('C', 'M') | ('C', 'V') | ('C', 'F') | ('T', 'D') | ('K', 'M') | ('C', 'G')
        | ('C', 'D') | ('C', 'I') | ('D', 'J') | ('E', 'G') | ('G', 'Q') | ('E', 'R')
        | ('S', 'Z') | ('E', 'T') | ('G', 'A') | ('G', 'M') | ('G', 'H') | ('G', 'N')
        | ('G', 'W') | ('K', 'E') | ('L', 'S') | ('L', 'R') | ('L', 'Y') | ('M', 'G')
        | ('M', 'W') | ('M', 'L') | ('M', 'R') | ('M', 'U') | ('M', 'A') | ('M', 'Z')
        | ('N', 'A') | ('N', 'E') | ('N', 'G') | ('R', 'W') | ('S', 'T') | ('S', 'N')
        | ('S', 'C') | ('S', 'L') | ('S', 'O') | ('Z', 'A') | ('S', 'S') | ('S', 'D')
        | ('T', 'Z') | ('T', 'G') | ('T', 'N') | ('U', 'G') | ('E', 'H') | ('Z', 'M')
        | ('Z', 'W') => "Africa",
        ('A', 'F') | ('A', 'M') | ('A', 'Z') | ('B', 'H') | ('B', 'D') | ('B', 'T')
        | ('B', 'N') | ('K', 'H') | ('C', 'N') | ('C', 'Y') | ('G', 'E') | ('H', 'K')
        | ('I', 'N') | ('I', 'D') | ('I', 'R') | ('I', 'Q') | ('I', 'L') | ('J', 'P')
        | ('J', 'O') | ('K', 'Z') | ('K', 'W') | ('K', 'G') | ('L', 'A') | ('L', 'B')
        | ('M', 'O') | ('M', 'Y') | ('M', 'V') | ('M', 'N') | ('M', 'M') | ('N', 'P')
        | ('K', 'P') | ('O', 'M') | ('P', 'K') | ('P', 'S') | ('P', 'H') | ('Q', 'A')
        | ('S', 'A') | ('S', 'G') | ('K', 'R') | ('L', 'K') | ('S', 'Y') | ('T', 'W')
        | ('T', 'J') | ('T', 'H') | ('T', 'L') | ('T', 'R') | ('T', 'M') | ('A', 'E')
        | ('U', 'Z') | ('V', 'N') | ('Y', 'E') => "Asia",
        ('A', 'G') | ('B', 'S') | ('B', 'B') | ('B', 'Z') | ('C', 'A') | ('C', 'R')
        | ('C', 'U') | ('D', 'M') | ('D', 'O') | ('S', 'V') | ('G', 'D') | ('G', 'T')
        | ('H', 'T') | ('H', 'N') | ('J', 'M') | ('M', 'X') | ('N', 'I') | ('P', 'A')
        | ('K', 'N') | ('L', 'C') | ('V', 'C') | ('T', 'T') | ('U', 'S') | ('P', 'R')
        | ('G', 'L') | ('B', 'M') => "North America",
        ('A', 'R') | ('B', 'O') | ('B', 'R') | ('C', 'L') | ('C', 'O') | ('E', 'C')
        | ('F', 'K') | ('G', 'F') | ('G', 'Y') | ('P', 'Y') | ('P', 'E') | ('S', 'R')
        | ('U', 'Y') | ('V', 'E') => "South America",
        ('A', 'U') | ('F', 'J') | ('P', 'F') | ('G', 'U') | ('K', 'I') | ('M', 'H')
        | ('F', 'M') | ('N', 'R') | ('N', 'C') | ('N', 'Z') | ('P', 'W') | ('P', 'G')
        | ('W', 'S') | ('S', 'B') | ('T', 'O') | ('T', 'V') | ('V', 'U') => "Oceania",
        _ => "Other",
    }
}

/// The seven names that a continent can have.
pub open spec fn is_continent(name: Seq<char>) -> bool {
    ||| name == "Europe"@
    ||| name == "Africa"@
    ||| name == "Asia"@
    ||| name == "North America"@
    ||| name == "South America"@
    ||| name == "Oceania"@
    ||| name == "Other"@
}

/// Every text, whether a known code or not, falls under one of seven names.
pub proof fn every_code_has_a_continent(cc: Seq<char>)
    ensures
        is_continent(continent_name(cc)),
{
}

/// The codes that begin with A, B, C, D, E, F, G or H, by their second letter.
pub proof fn codes_a_to_h(cc: Seq<char>)
    requires
        cc.len() == 2,
    ensures
        cc[0] == 'A' ==> continent_name(cc) == match cc[1] {
            'D' | 'L' | 'T' => "Europe"@,
            'O' => "Africa"@,
            'E' | 'F' | 'M' | 'Z' => "Asia"@,
            'G' => "North America"@,
            'R' => "South America"@,
            'U' => "Oceania"@,
            _ => "Other"@,
        },
        cc[0] == 'B' ==> continent_name(cc) == match cc[1] {
            'A' | 'E' | 'G' | 'Y' => "Europe"@,
            'F' | 'I' | 'J' | 'W' => "Africa"@,
            'D' | 'H' | 'N' | 'T' => "Asia"@,
            'B' | 'M' | 'S' | 'Z' => "North America"@,
            'O' | 'R' => "South America"@,
            _ => "Other"@,
        },
        cc[0] == 'C' ==> continent_name(cc) == match cc[1] {
            'H' | 'Z' => "Europe"@,
            'D' | 'F' | 'G' | 'I' | 'M' | 'V' => "Africa"@,
            'N' | 'Y' => "Asia"@,
            'A' | 'R' | 'U' => "North America"@,
            'L' | 'O' => "South America"@,
            _ => "Other"@,
        },
        cc[0] == 'D' ==> continent_name(cc) == match cc[1] {
            'E' | 'K' => "Europe"@,
            'J' | 'Z' => "Africa"@,
            'M' | 'O' => "North America"@,
            _ => "Other"@,
        },
        cc[0] == 'E' ==> continent_name(cc) == match cc[1] {
            'E' | 'S' => "Europe"@,
            'G' | 'H' | 'R' | 'T' => "Africa"@,
            'C' => "South America"@,
            _ => "Other"@,
        },
        cc[0] == 'F' ==> continent_name(cc) == match cc[1] {
            'I' | 'O' | 'R' => "Europe"@,
            'K' => "South America"@,
            'J' | 'M' => "Oceania"@,
            _ => "Other"@,
        },
        cc[0] == 'G' ==> continent_name(cc) == match cc[1] {
            'B' | 'G' | 'I' | 'R' => "Europe"@,
            'A' | 'H' | 'M' | 'N' | 'Q' | 'W' => "Africa"@,
            'E' => "Asia"@,
            'D' | 'L' | 'T' => "North America"@,
            'F' | 'Y' => "South America"@,
            'U' => "Oceania"@,
            _ => "Other"@,
        },
        cc[0] == 'H' ==> continent_name(cc) == match cc[1] {
            'R' | 'U' => "Europe"@,
            'K' => "Asia"@,
            'N' | 'T' => "North America"@,
            _ => "Other"@,
        },
{
}

/// The codes that begin with I, J, K, L, M, N, O or P, by their second letter.
pub proof fn codes_i_to_p(cc: Seq<char>)
    requires
        cc.len() == 2,
    ensures
        cc[0] == 'I' ==> continent_name(cc) == match cc[1] {
            'E' | 'M' | 'S' | 'T' => "Europe"@,
            'D' | 'L' | 'N' | 'Q' | 'R' => "Asia"@,
            _ => "Other"@,
        },
        cc[0] == 'J' ==> continent_name(cc) == match cc[1] {
            'E' => "Europe"@,
            'O' | 'P' => "Asia"@,
            'M' => "North America"@,
            _ => "Other"@,
        },
        cc[0] == 'K' ==> continent_name(cc) == match cc[1] {
            'E' | 'M' => "Africa"@,
            'G' | 'H' | 'P' | 'R' | 'W' | 'Z' => "Asia"@,
            'N' => "North America"@,
            'I' => "Oceania"@,
            _ => "Other"@,
        },
        cc[0] == 'L' ==> continent_name(cc) == match cc[1] {
            'I' | 'T' | 'U' | 'V' => "Europe"@,
            'R' | 'S' | 'Y' => "Africa"@,
            'A' | 'B' | 'K' => "Asia"@,
            'C' => "North America"@,
            _ => "Other"@,
        },
        cc[0] == 'M' ==> continent_name(cc) == match cc[1] {
            'C' | 'D' | 'E' | 'K' | 'T' => "Europe"@,
            'A' | 'G' | 'L' | 'R' | 'U' | 'W' | 'Z' => "Africa"@,
            'M' | 'N' | 'O' | 'V' | 'Y' => "Asia"@,
            'X' => "North America"@,
            'H' => "Oceania"@,
            _ => "Other"@,
        },
        cc[0] == 'N' ==> continent_name(cc) == match cc[1] {
            'L' | 'O' => "Europe"@,
            'A' | 'E' | 'G' => "Africa"@,
            'P' => "Asia"@,
            'I' => "North America"@,
            'C' | 'R' | 'Z' => "Oceania"@,
            _ => "Other"@,
        },
        cc[0] == 'O' ==> continent_name(cc) == match cc[1] {
            'M' => "Asia"@,
            _ => "Other"@,
        },
        cc[0] == 'P' ==> continent_name(cc) == match cc[1] {
            'L' | 'T' => "Europe"@,
            'H' | 'K' | 'S' => "Asia"@,
            'A' | 'R' => "North America"@,
            'E' | 'Y' => "South America"@,
            'F' | 'G' | 'W' => "Oceania"@,
            _ => "Other"@,
        },
{
}

/// The codes that begin with Q, R, S, T, U, V, W, X, Y or Z, by their second letter.
pub proof fn codes_q_to_z(cc: Seq<char>)
    requires
        cc.len() == 2,
    ensures
        cc[0] == 'Q' ==> continent_name(cc) == match cc[1] {
            'A' => "Asia"@,
            _ => "Other"@,
        },
        cc[0] == 'R' ==> continent_name(cc) == match cc[1] {
            'O' | 'S' | 'U' => "Europe"@,
            'W' => "Africa"@,
            _ => "Other"@,
        },
        cc[0] == 'S' ==> continent_name(cc) == match cc[1] {
            'E' | 'I' | 'K' | 'M' => "Europe"@,
            'C' | 'D' | 'L' | 'N' | 'O' | 'S' | 'T' | 'Z' => "Africa"@,
            'A' | 'G' | 'Y' => "Asia"@,
            'V' => "North America"@,
            'R' => "South America"@,
            'B' => "Oceania"@,
            _ => "Other"@,
        },
        cc[0] == 'T' ==> continent_name(cc) == match cc[1] {
            'D' | 'G' | 'N' | 'Z' => "Africa"@,
            'H' | 'J' | 'L' | 'M' | 'R' | 'W' => "Asia"@,
            'T' => "North America"@,
            'O' | 'V' => "Oceania"@,
            _ => "Other"@,
        },
        cc[0] == 'U' ==> continent_name(cc) == match cc[1] {
            'A' => "Europe"@,
            'G' => "Africa"@,
            'Z' => "Asia"@,
            'S' => "North America"@,
            'Y' => "South America"@,
            _ => "Other"@,
        },
        cc[0] == 'V' ==> continent_name(cc) == match cc[1] {
            'A' => "Europe"@,
            'N' => "Asia"@,
            'C' => "North America"@,
            'E' => "South America"@,
            'U' => "Oceania"@,
            _ => "Other"@,
        },
        cc[0] == 'W' ==> continent_name(cc) == match cc[1] {
            'S' => "Oceania"@,
            _ => "Other"@,
        },
        cc[0] == 'X' ==> continent_name(cc) == match cc[1] {
            'K' => "Europe"@,
            _ => "Other"@,
        },
        cc[0] == 'Y' ==> continent_name(cc) == match cc[1] {
            'E' => "Asia"@,
            _ => "Other"@,
        },
        cc[0] == 'Z' ==> continent_name(cc) == match cc[1] {
            'A' | 'M' | 'W' => "Africa"@,
            _ => "Other"@,
        },
{
}

/// Codes are two capital letters; every other text is no code and falls under
/// "Other".
pub proof fn other_texts_are_no_codes(cc: Seq<char>)
    requires
        cc.len() != 2 || !('A' <= cc[0] <= 'Z') || !('A' <= cc[1] <= 'Z'),
    ensures
        continent_name(cc) == "Other"@,
{
}

} // verus!
