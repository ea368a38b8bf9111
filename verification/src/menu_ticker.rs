use vstd::prelude::*;

verus! {

/// How many frames a held direction waits before the cursor moves again,
/// by how many moves have already happened while it was held.
pub open spec fn tick_duration(i: int) -> int {
    if i == 0 {
        20
    } else if i == 1 {
        12
    } else if i == 2 {
        10
    } else if i == 3 {
        8
    } else if i == 4 {
        6
    } else {
        5
    }
}

/// The number of entries in the table of tick durations.
pub const TICK_DURATION_COUNT: usize = 6;

/// Cursor of a vertical menu list that moves once per tick while a
/// direction is held, ticking faster the longer it is held.
#[derive(Clone, Copy, Debug, PartialEq, Eq, Structural)]
pub struct MenuTicker {
    pub cursor: usize,
    pub cursor_max: usize,
    pub ticks_remaining: usize,
    pub tick_duration_i: usize,
    pub reset: bool,
}

/// The cursor after moving up a list whose last index is `max`: it wraps from the top to the bottom.
pub open spec fn cursor_up(cursor: int, max: int) -> int {
    if cursor == 0 {
        max
    } else {
        cursor - 1
    }
}

/// The cursor after moving down a list whose last index is `max`: it wraps from the bottom to the top.
pub open spec fn cursor_down(cursor: int, max: int) -> int {
    if cursor == max {
        0
    } else {
        cursor + 1
    }
}

impl MenuTicker {
    /// The tick counters are in range: the duration index lies in the table, and a ticker
    /// that is not reset has a frame left to wait.
    pub open spec fn counters_wf(self) -> bool {
        &&& self.tick_duration_i < TICK_DURATION_COUNT
        &&& !self.reset ==> self.ticks_remaining >= 1
    }

    /// The cursor lies in the list and the tick counters are in range.
    pub open spec fn wf(self) -> bool {
        &&& self.cursor <= self.cursor_max
        &&& self.counters_wf()
    }

    /// The state after one call of `tick`, and whether that call ticked.
    pub open spec fn spec_tick(self) -> (MenuTicker, bool) {
        if self.reset {
            (MenuTicker { ticks_remaining: 20, tick_duration_i: 0, reset: false, ..self }, true)
        } else if self.ticks_remaining == 1 {
            (
                MenuTicker {
                    ticks_remaining: tick_duration(self.tick_duration_i as int) as usize,
                    tick_duration_i: if self.tick_duration_i + 1 < TICK_DURATION_COUNT {
                        (self.tick_duration_i + 1) as usize
                    } else {
                        self.tick_duration_i
                    },
                    ..self
                },
                true,
            )
        } else {
            (MenuTicker { ticks_remaining: (self.ticks_remaining - 1) as usize, ..self }, false)
        }
    }

    /// The state after one call of `up`.
    pub open spec fn spec_up(self) -> MenuTicker {
        let (t, ticked) = self.spec_tick();
        if ticked {
            MenuTicker { cursor: cursor_up(t.cursor as int, t.cursor_max as int) as usize, ..t }
        } else {
            t
        }
    }

    /// The state after one call of `down`.
    pub open spec fn spec_down(self) -> MenuTicker {
        let (t, ticked) = self.spec_tick();
        if ticked {
            MenuTicker { cursor: cursor_down(t.cursor as int, t.cursor_max as int) as usize, ..t }
        } else {
            t
        }
    }

    /// A ticker over `item_count` items, at the top, that ticks on the next call of `tick`.
    #[verifier::allow_in_spec]
    pub fn new(item_count: usize) -> MenuTicker
        returns
            (MenuTicker {
                cursor: 0,
                cursor_max: if item_count > 0 { (item_count - 1) as usize } else { 0 },
                ticks_remaining: 0,
                tick_duration_i: 0,
                reset: true,
            }),
    {
        MenuTicker {
            cursor: 0,
            cursor_max: if item_count > 0 { item_count - 1 } else { 0 },
            ticks_remaining: 0,
            tick_duration_i: 0,
            reset: true,
        }
    }

    /// Advances the internal state and returns true if a tick occurs.
    pub fn tick(&mut self) -> (ticked: bool)
        requires
            old(self).counters_wf(),
        ensures
            final(self).counters_wf(),
            old(self).wf() ==> final(self).wf(),
            (*final(self), ticked) == old(self).spec_tick(),
    {
        let tick_durations: [usize; 6] = [20, 12, 10, 8, 6, 5];
        if self.reset {
            self.ticks_remaining = tick_durations[0];
            self.tick_duration_i = 0;
            self.reset = false;
            true
        } else {
            self.ticks_remaining = self.ticks_remaining - 1;
            if self.ticks_remaining == 0 {
                let i = self.tick_duration_i;
                assert(tick_durations@[i as int] == tick_duration(i as int));
                self.ticks_remaining = tick_durations[i];
                if self.tick_duration_i < tick_durations.len() - 1 {
                    self.tick_duration_i = self.tick_duration_i + 1;
                }
                true
            } else {
                false
            }
        }
    }

    /// Moves the cursor up one item, wrapping to the bottom, if a tick occurs.
    pub fn up(&mut self)
        requires
            old(self).counters_wf(),
        ensures
            final(self).counters_wf(),
            old(self).wf() ==> final(self).wf(),
            *final(self) == old(self).spec_up(),
    {
        if self.tick() {
            if self.cursor == 0 {
                self.cursor = self.cursor_max;
            } else {
                self.cursor = self.cursor - 1;
            }
        }
    }

    /// Moves the cursor down one item, wrapping to the top, if a tick occurs.
    pub fn down(&mut self)
        requires
            old(self).counters_wf(),
            old(self).cursor != old(self).cursor_max ==> old(self).cursor < usize::MAX,
        ensures
            final(self).counters_wf(),
            old(self).wf() ==> final(self).wf(),
            *final(self) == old(self).spec_down(),
    {
        if self.tick() {
            if self.cursor == self.cursor_max {
                self.cursor = 0;
            } else {
                self.cursor = self.cursor + 1;
            }
        }
    }

    /// Makes the next call of `tick` tick immediately.
    pub fn reset(&mut self)
        ensures
            old(self).counters_wf() ==> final(self).counters_wf(),
            old(self).wf() ==> final(self).wf(),
            *final(self) == (MenuTicker { reset: true, ..*old(self) }),
    {
        self.reset = true;
    }
}

/// Moving the cursor down then up, or up then down, returns it to where it was.
pub proof fn lemma_cursor_up_down_inverse(cursor: int, max: int)
    requires
        0 <= cursor <= max,
    ensures
        cursor_up(cursor_down(cursor, max), max) == cursor,
        cursor_down(cursor_up(cursor, max), max) == cursor,
        0 <= cursor_up(cursor, max) <= max,
        0 <= cursor_down(cursor, max) <= max,
{
}

/// After a reset the next tick always fires, and the following ticks fire
/// only once the current duration has run out.
pub proof fn lemma_reset_then_tick_fires(t: MenuTicker)
    requires
        t.wf(),
    ensures
        (MenuTicker { reset: true, ..t }).spec_tick().1,
        (MenuTicker { reset: true, ..t }).spec_tick().0.ticks_remaining == 20,
        !(MenuTicker { reset: true, ..t }).spec_tick().0.spec_tick().1,
{
}

/// The ticker after `n` calls of `tick`.
pub open spec fn after_ticks(t: MenuTicker, n: nat) -> MenuTicker
    decreases n,
{
    if n == 0 {
        t
    } else {
        after_ticks(t, (n - 1) as nat).spec_tick().0
    }
}

/// The `i`-th call of `tick` (counting from one) ticks.
pub open spec fn ticks_on_call(t: MenuTicker, i: nat) -> bool {
    i >= 1 && after_ticks(t, (i - 1) as nat).spec_tick().1
}

/// The calls that tick after a reset while a direction is held: at once, then after waits
/// of 20, 20, 12, 10, 8 and 6 calls, and then every 5 calls.
pub open spec fn held_tick_call(i: nat) -> bool {
    ||| i == 1
    ||| i == 21
    ||| i == 41
    ||| i == 53
    ||| i == 63
    ||| i == 71
    ||| (i >= 77 && (i - 77) % 5 == 0)
}

/// Within one wait: a ticker that is not reset and has `r` calls left ticks only on the
/// `r`-th call, after which it waits the next duration.
proof fn lemma_wait(s: MenuTicker, k: nat)
    requires
        !s.reset,
        s.ticks_remaining >= 1,
        s.tick_duration_i < TICK_DURATION_COUNT,
        k <= s.ticks_remaining,
    ensures
        k < s.ticks_remaining ==> after_ticks(s, k) == (MenuTicker { ticks_remaining: (s.ticks_remaining - k) as usize, ..s }),
        k < s.ticks_remaining ==> (after_ticks(s, k).spec_tick().1 <==> k == s.ticks_remaining - 1),
        k == s.ticks_remaining ==> after_ticks(s, k) == (MenuTicker {
            ticks_remaining: tick_duration(s.tick_duration_i as int) as usize,
            tick_duration_i: if s.tick_duration_i + 1 < TICK_DURATION_COUNT {
                (s.tick_duration_i + 1) as usize
            } else {
                s.tick_duration_i
            },
            ..s
        }),
    decreases k,
{
    if k > 0 {
        lemma_wait(s, (k - 1) as nat);
    }
}

/// `after_ticks` of a sum is `after_ticks` of `after_ticks`.
proof fn lemma_after_ticks_add(t: MenuTicker, a: nat, b: nat)
    ensures
        after_ticks(t, a + b) == after_ticks(after_ticks(t, a), b),
    decreases b,
{
    if b > 0 {
        lemma_after_ticks_add(t, a, (b - 1) as nat);
        assert(((a + b) - 1) as nat == a + (b - 1) as nat);
    }
}

/// The calls from `start` on, within a wait of `r` calls from state `s` reached after
/// `start` calls, tick exactly at the end of the wait.
proof fn lemma_wait_calls(t: MenuTicker, start: nat, i: nat)
    requires
        !after_ticks(t, start).reset,
        after_ticks(t, start).ticks_remaining >= 1,
        after_ticks(t, start).tick_duration_i < TICK_DURATION_COUNT,
        start < i <= start + after_ticks(t, start).ticks_remaining,
    ensures
        ticks_on_call(t, i) <==> i == start + after_ticks(t, start).ticks_remaining,
{
    let s = after_ticks(t, start);
    let k = (i - 1 - start) as nat;
    lemma_after_ticks_add(t, start, k);
    assert(((i - 1) as nat) == start + k);
    lemma_wait(s, k);
}

/// Holding a direction from a reset, the ticker ticks on the first call, then after waits of
/// 20, 20, 12, 10, 8 and 6 calls, and from then on every 5 calls; its cursor never changes.
pub proof fn lemma_held_tick_pattern(t: MenuTicker, i: nat)
    requires
        t.reset,
        i >= 1,
    ensures
        ticks_on_call(t, i) <==> held_tick_call(i),
        after_ticks(t, i).cursor == t.cursor,
        after_ticks(t, i).cursor_max == t.cursor_max,
    decreases i,
{
    if i > 1 {
        lemma_held_tick_pattern(t, (i - 1) as nat);
    }
    let s1 = after_ticks(t, 1);
    assert(after_ticks(t, 0) == t);
    assert(s1 == MenuTicker { ticks_remaining: 20, tick_duration_i: 0, reset: false, ..t });
    // the fixed waits
    lemma_wait(s1, 20);
    lemma_after_ticks_add(t, 1, 20);
    let s21 = after_ticks(t, 21);
    lemma_wait(s21, 20);
    lemma_after_ticks_add(t, 21, 20);
    let s41 = after_ticks(t, 41);
    lemma_wait(s41, 12);
    lemma_after_ticks_add(t, 41, 12);
    let s53 = after_ticks(t, 53);
    lemma_wait(s53, 10);
    lemma_after_ticks_add(t, 53, 10);
    let s63 = after_ticks(t, 63);
    lemma_wait(s63, 8);
    lemma_after_ticks_add(t, 63, 8);
    let s71 = after_ticks(t, 71);
    lemma_wait(s71, 6);
    lemma_after_ticks_add(t, 71, 6);
    let s77 = after_ticks(t, 77);
    assert(s77.ticks_remaining == 5 && s77.tick_duration_i == 5 && !s77.reset);
    if i == 1 {
        assert(ticks_on_call(t, 1));
    } else if i <= 21 {
        lemma_wait_calls(t, 1, i);
    } else if i <= 41 {
        lemma_wait_calls(t, 21, i);
    } else if i <= 53 {
        lemma_wait_calls(t, 41, i);
    } else if i <= 63 {
        lemma_wait_calls(t, 53, i);
    } else if i <= 71 {
        lemma_wait_calls(t, 63, i);
    } else if i <= 77 {
        lemma_wait_calls(t, 71, i);
    } else {
        let m = ((i - 78) / 5) as nat;
        lemma_period(t, m);
        let start = (77 + 5 * m) as nat;
        assert(start < i <= start + 5) by (nonlinear_arith)
            requires i >= 78, m == (i - 78) / 5, start == 77 + 5 * m;
        lemma_wait_calls(t, start, i);
        assert(((i - 77) % 5 == 0) <==> i == start + 5) by (nonlinear_arith)
            requires i >= 78, m == (i - 78) / 5, start == 77 + 5 * m;
    }
}

/// From call 77 on, every wait is 5 calls.
proof fn lemma_period(t: MenuTicker, m: nat)
    requires
        t.reset,
        after_ticks(t, 77) == (MenuTicker { ticks_remaining: 5, tick_duration_i: 5, reset: false, ..t }),
    ensures
        after_ticks(t, 77 + 5 * m) == (MenuTicker { ticks_remaining: 5, tick_duration_i: 5, reset: false, ..t }),
    decreases m,
{
    if m > 0 {
        lemma_period(t, (m - 1) as nat);
        let a = (77 + 5 * (m - 1)) as nat;
        let s = after_ticks(t, a);
        lemma_wait(s, 5);
        lemma_after_ticks_add(t, a, 5);
        assert(a + 5 == 77 + 5 * m);
    }
}

} // verus!
