//! Cookies: the numbers that tell one evaluation request from another.

use vstd::prelude::*;

verus! {

/// How many cookies are handed out before they repeat.
pub open spec fn cookie_count() -> int {
    0x1_0000_0000
}

/// The cookie that follows `cookie`.
pub open spec fn cookie_after(cookie: u32) -> u32 {
    if cookie == u32::MAX {
        0
    } else {
        (cookie + 1) as u32
    }
}

/// The cookie that a counter at `first` hands out after `n` others.
pub open spec fn nth_cookie(first: u32, n: nat) -> u32
    decreases n,
{
    if n == 0 {
        first
    } else {
        cookie_after(nth_cookie(first, (n - 1) as nat))
    }
}

/// Hands out cookies, one after the other, starting at one and going on from zero after the
/// greatest. Its view is the cookie that comes next.
#[derive(Debug)]
pub struct CookieCounter {
    next: u32,
}

impl View for CookieCounter {
    type V = u32;

    closed spec fn view(&self) -> u32 {
        self.next
    }
}

impl CookieCounter {
    /// A counter that has handed out nothing yet.
    pub fn new() -> (counter: CookieCounter)
        ensures
            counter@ == 1,
    {
        CookieCounter { next: 1 }
    }

    /// Hands out the next cookie.
    pub fn next_cookie(&mut self) -> (cookie: u32)
        ensures
            cookie == old(self)@,
            final(self)@ == cookie_after(cookie),
    {
        let cookie: u32 = self.next;
        self.next = cookie.wrapping_add(1);
        cookie
    }
}

proof fn nth_cookie_counts(first: u32, n: nat)
    ensures
        nth_cookie(first, n) == (first + n) % cookie_count(),
    decreases n,
{
    if n > 0 {
        nth_cookie_counts(first, (n - 1) as nat);
        let before = first + n - 1;
        assert((before + 1) % cookie_count() == (if before % cookie_count() == u32::MAX {
            0
        } else {
            before % cookie_count() + 1
        }));
    }
}

/// No cookie is handed out twice within as many requests as there are cookies.
pub proof fn cookies_stay_apart(first: u32, i: nat, j: nat)
    requires
        i < j < i + 0x1_0000_0000,
    ensures
        nth_cookie(first, i) != nth_cookie(first, j),
{
    nth_cookie_counts(first, i);
    nth_cookie_counts(first, j);
    if (first + i) % cookie_count() == (first + j) % cookie_count() {
        let a = (first + i) / cookie_count();
        let b = (first + j) / cookie_count();
        assert(j - i == (b - a) * cookie_count());
    }
}

} // verus!
