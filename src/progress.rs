use vstd::prelude::*;

use crate::json::{get_field, as_usize, read_field, usize_of, Json};

verus! {

/// The answer of the server to an update that it accepted: the update's id.
#[derive(Debug, Clone, Copy, PartialEq, Eq)]
pub struct ProgressJson {
    pub update_id: usize,
}

/// Tracks an update that the server runs in the background: the update's id and
/// the index that it belongs to.
#[derive(Debug, Clone)]
pub struct Progress {
    pub id: usize,
    pub index_uid: String,
}

/// The decimal digit `d`.
pub open spec fn digit_char(d: nat) -> char {
    if d == 0 {
        '0'
    } else if d == 1 {
        '1'
    } else if d == 2 {
        '2'
    } else if d == 3 {
        '3'
    } else if d == 4 {
        '4'
    } else if d == 5 {
        '5'
    } else if d == 6 {
        '6'
    } else if d == 7 {
        '7'
    } else if d == 8 {
        '8'
    } else {
        '9'
    }
}

/// The decimal digits of `n`, without leading zeros.
pub open spec fn decimal_of(n: nat) -> Seq<char>
    decreases n,
{
    if n < 10 {
        seq![digit_char(n)]
    } else {
        decimal_of(n / 10).push(digit_char(n % 10))
    }
}

/// The path, below the server's address, at which the status of update `id` of
/// index `uid` is read.
pub open spec fn status_path(uid: Seq<char>, id: nat) -> Seq<char> {
    "/indexes/"@ + uid + "/updates/"@ + decimal_of(id)
}

fn digit_text(d: usize) -> (r: &'static str)
    requires
        d < 10,
    ensures
        r@ == seq![digit_char(d as nat)],
{
    proof {
        reveal_strlit("0");
        reveal_strlit("1");
        reveal_strlit("2");
        reveal_strlit("3");
        reveal_strlit("4");
        reveal_strlit("5");
        reveal_strlit("6");
        reveal_strlit("7");
        reveal_strlit("8");
        reveal_strlit("9");
    }
    if d == 0 {
        "0"
    } else if d == 1 {
        "1"
    } else if d == 2 {
        "2"
    } else if d == 3 {
        "3"
    } else if d == 4 {
        "4"
    } else if d == 5 {
        "5"
    } else if d == 6 {
        "6"
    } else if d == 7 {
        "7"
    } else if d == 8 {
        "8"
    } else {
        "9"
    }
}

fn write_decimal(out: &mut String, n: usize)
    ensures
        final(out)@ == old(out)@ + decimal_of(n as nat),
    decreases n,
{
    if n >= 10 {
        write_decimal(out, n / 10);
    }
    out.append(digit_text(n % 10));
    proof {
        if n >= 10 {
            assert(decimal_of(n as nat) == decimal_of((n / 10) as nat).push(digit_char((n % 10) as nat)));
        }
        assert(final(out)@ =~= old(out)@ + decimal_of(n as nat));
    }
}

impl ProgressJson {
    /// Reads the server's answer to an accepted update: an object whose member
    /// `updateId` holds the update's id.
    pub fn decode(value: &Json) -> (r: Option<ProgressJson>)
        ensures
            match r {
                Some(p) => read_field(*value, "updateId"@, |j: Json| usize_of(j)) == Some(p.update_id),
                None => read_field(*value, "updateId"@, |j: Json| usize_of(j)) is None,
            },
    {
        match get_field(value, "updateId") {
            Some(j) => match as_usize(j) {
                Some(n) => Some(ProgressJson { update_id: n }),
                None => None,
            },
            None => None,
        }
    }

    /// Tracks the update in the index `index_uid`.
    pub fn into_progress(self, index_uid: String) -> (r: Progress)
        ensures
            r.id == self.update_id,
            r.index_uid@ == index_uid@,
    {
        Progress { id: self.update_id, index_uid }
    }
}

impl Progress {
    /// The address at which the server answers with the update's status.
    pub fn status_url(&self, host: &str) -> (r: String)
        ensures
            r@ == host@ + status_path(self.index_uid@, self.id as nat),
    {
        let mut url = String::from_str(host);
        url.append("/indexes/");
        url.append(self.index_uid.as_str());
        url.append("/updates/");
        write_decimal(&mut url, self.id);
        assert(url@ =~= host@ + status_path(self.index_uid@, self.id as nat));
        url
    }
}

} // verus!
