//! Where the store keeps each kind of row: the addresses that lists are read
//! from and rows are sent to.

use vstd::prelude::*;
use vstd::string::StringExecFns;
use crate::mpdb::{DbId, Mpdb};
use crate::text::text_of;

verus! {

/// The collections of the store.
#[derive(Clone, Copy, Debug, PartialEq, Eq, Structural)]
pub enum Collection {
    Countries,
    Cities,
    Venues,
    Artists,
    Songs,
    Songtitles,
    Concerts,
    Sets,
    Performances,
}

impl Collection {
    /// The name of the collection in an address.
    pub open spec fn name_text(self) -> Seq<char> {
        match self {
            Collection::Countries => "countries"@,
            Collection::Cities => "cities"@,
            Collection::Venues => "venues"@,
            Collection::Artists => "artists"@,
            Collection::Songs => "songs"@,
            Collection::Songtitles => "songtitles"@,
            Collection::Concerts => "concerts"@,
            Collection::Sets => "sets"@,
            Collection::Performances => "performances"@,
        }
    }

    /// The name of the collection in an address.
    pub fn name(&self) -> (out: &'static str)
        ensures
            out@ == self.name_text(),
    {
        match self {
            Collection::Countries => "countries",
            Collection::Cities => "cities",
            Collection::Venues => "venues",
            Collection::Artists => "artists",
            Collection::Songs => "songs",
            Collection::Songtitles => "songtitles",
            Collection::Concerts => "concerts",
            Collection::Sets => "sets",
            Collection::Performances => "performances",
        }
    }
}

/// The character of a digit.
pub open spec fn digit_char(d: int) -> char {
    if d == 0 {
        '0'
    } else if d == 1 {
        '1'
    } else if d == 2 {
        '2'
    } else if d == 3 {
        '3'
    } else if d == 4 {
        '4'
    } else if d == 5 {
        '5'
    } else if d == 6 {
        '6'
    } else if d == 7 {
        '7'
    } else if d == 8 {
        '8'
    } else {
        '9'
    }
}

/// The decimal digits of a natural number, without leading zeros.
pub open spec fn digits(n: nat) -> Seq<char>
    decreases n,
{
    if n < 10 {
        seq![digit_char(n as int)]
    } else {
        digits(n / 10).push(digit_char((n % 10) as int))
    }
}

/// A whole number in decimal, with a minus sign where it is negative.
pub open spec fn decimal_text(n: int) -> Seq<char> {
    if n < 0 {
        seq!['-'] + digits((-n) as nat)
    } else {
        digits(n as nat)
    }
}

fn digit(d: u32) -> (c: char)
    requires
        d < 10,
    ensures
        c == digit_char(d as int),
{
    if d == 0 {
        '0'
    } else if d == 1 {
        '1'
    } else if d == 2 {
        '2'
    } else if d == 3 {
        '3'
    } else if d == 4 {
        '4'
    } else if d == 5 {
        '5'
    } else if d == 6 {
        '6'
    } else if d == 7 {
        '7'
    } else if d == 8 {
        '8'
    } else {
        '9'
    }
}

/// A number in decimal.
pub fn decimal(n: i32) -> (out: String)
    ensures
        out@ == decimal_text(n as int),
{
    let size: u32 = if n < 0 {
        (0 - n as i64) as u32
    } else {
        n as u32
    };
    let mut rest: u32 = size;
    let mut chars: Vec<char> = Vec::new();
    while rest >= 10
        invariant
            digits(size as nat) == digits(rest as nat) + chars@,
        decreases rest,
    {
        let ghost before = chars@;
        chars.insert(0, digit(rest % 10));
        proof {
            assert(chars@ == seq![digit_char((rest % 10) as int)] + before);
            assert(digits((rest / 10) as nat).push(digit_char((rest % 10) as int)) + before
                == digits((rest / 10) as nat) + chars@);
        }
        rest = rest / 10;
    }
    let ghost before = chars@;
    chars.insert(0, digit(rest));
    proof {
        assert(chars@ == seq![digit_char(rest as int)] + before);
        assert(chars@ == digits(size as nat));
    }
    if n < 0 {
        chars.insert(0, '-');
        proof {
            assert(chars@ == seq!['-'] + digits(size as nat));
        }
    }
    text_of(&chars)
}

/// The address of a collection under a base address.
pub open spec fn url_text(base: Seq<char>, collection: Collection) -> Seq<char> {
    base + "/api/"@ + collection.name_text()
}

/// The address of the row with an id in a collection under a base address.
pub open spec fn row_url_text(base: Seq<char>, collection: Collection, id: DbId) -> Seq<char> {
    url_text(base, collection).push('/') + decimal_text(id.0 as int)
}

impl Mpdb {
    /// The address that a collection is listed at and new rows are sent to.
    pub fn url(&self, collection: Collection) -> (out: String)
        ensures
            out@ == url_text(self.base_url@, collection),
    {
        let mut out = self.base_url.clone();
        out.append("/api/");
        out.append(collection.name());
        out
    }

    /// The address that a changed concert is sent to.
    pub fn concert_url(&self, id: DbId) -> (out: String)
        ensures
            out@ == row_url_text(self.base_url@, Collection::Concerts, id),
    {
        let mut out = self.url(Collection::Concerts);
        out.push('/');
        out.append(decimal(id.0).as_str());
        out
    }
}

} // verus!
