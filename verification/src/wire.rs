//! What goes to the server: addresses, page numbers and request bodies.

use vstd::prelude::*;
use vstd::string::*;

verus! {

/// The number of entries that the server puts on one page of a follow list.
pub const PAGE_SIZE: u16 = 50;

/// Where a page of a follow list is asked for.
pub const FOLLOWINGS_URL: &'static str = "https://api.bilibili.com/x/relation/followings";

/// Where a change to a follow relationship is posted.
pub const MODIFY_URL: &'static str = "https://api.bilibili.com/x/relation/modify";

/// The content type of the body that `unsub_body` builds.
pub const FORM_CONTENT_TYPE: &'static str = "application/x-www-form-urlencoded";

/// The number of pages that hold `total` entries: `total / 50`, rounded up.
pub open spec fn page_count(total: nat) -> nat {
    (total + 49) / 50
}

/// `page_count(total)` is the least number of pages of 50 entries that have
/// room for `total` entries: that many pages have room, and no `pages` that
/// has room is smaller.
pub proof fn lemma_page_count_is_ceiling(total: nat, pages: nat)
    ensures
        50 * page_count(total) >= total,
        50 * pages >= total ==> pages >= page_count(total),
{
}

/// Computes the number of pages that hold `total` entries.
pub fn pages_for(total: u16) -> (pages: u16)
    ensures
        pages == page_count(total as nat),
        pages <= 1311,
{
    let whole: u16 = total / PAGE_SIZE;
    if total % PAGE_SIZE == 0 {
        whole
    } else {
        whole + 1
    }
}

/// The character that stands for a digit below ten.
pub open spec fn digit_char(digit: nat) -> char {
    if digit == 0 {
        '0'
    } else if digit == 1 {
        '1'
    } else if digit == 2 {
        '2'
    } else if digit == 3 {
        '3'
    } else if digit == 4 {
        '4'
    } else if digit == 5 {
        '5'
    } else if digit == 6 {
        '6'
    } else if digit == 7 {
        '7'
    } else if digit == 8 {
        '8'
    } else {
        '9'
    }
}

/// A number written in decimal, without sign or leading zeros.
pub open spec fn decimal(n: nat) -> Seq<char>
    decreases n,
{
    if n < 10 {
        seq![digit_char(n)]
    } else {
        decimal(n / 10).push(digit_char(n % 10))
    }
}

fn digit_str(digit: u64) -> (text: &'static str)
    requires
        digit < 10,
    ensures
        text@ == seq![digit_char(digit as nat)],
{
    proof {
        reveal_strlit("0");
        reveal_strlit("1");
        reveal_strlit("2");
        reveal_strlit("3");
        reveal_strlit("4");
        reveal_strlit("5");
        reveal_strlit("6");
        reveal_strlit("7");
        reveal_strlit("8");
        reveal_strlit("9");
    }
    let text = if digit == 0 {
        "0"
    } else if digit == 1 {
        "1"
    } else if digit == 2 {
        "2"
    } else if digit == 3 {
        "3"
    } else if digit == 4 {
        "4"
    } else if digit == 5 {
        "5"
    } else if digit == 6 {
        "6"
    } else if digit == 7 {
        "7"
    } else if digit == 8 {
        "8"
    } else {
        "9"
    };
    assert(text@ =~= seq![digit_char(digit as nat)]);
    text
}

/// Writes a number in decimal.
pub fn decimal_string(n: u64) -> (text: String)
    ensures
        text@ == decimal(n as nat),
    decreases n,
{
    if n < 10 {
        digit_str(n).to_owned()
    } else {
        let head = decimal_string(n / 10);
        let text = head.concat(digit_str(n % 10));
        assert(text@ =~= decimal((n / 10) as nat).push(digit_char((n % 10) as nat)));
        text
    }
}

/// The body that asks the server to remove the follow relationship with the
/// account `mid`: the account, the action "remove", the place the request
/// comes from, and the token that authorises the change.
pub open spec fn unsub_body_text(mid: nat, csrf_token: Seq<char>) -> Seq<char> {
    "fid="@ + decimal(mid) + "&act=2&re_src=11&csrf="@ + csrf_token
}

/// Builds the body of the request that removes the follow relationship with
/// the account `mid`.
pub fn unsub_body(mid: u64, csrf_token: &str) -> (body: String)
    ensures
        body@ == unsub_body_text(mid as nat, csrf_token@),
{
    let number = decimal_string(mid);
    let mut body = "fid=".to_owned();
    body.append(number.as_str());
    body.append("&act=2&re_src=11&csrf=");
    body.append(csrf_token);
    body
}

} // verus!
