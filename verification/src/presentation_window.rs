//! Decisions of the audience window: which monitor it goes to, and its shape on a single screen.
use vstd::prelude::*;
use crate::presentation::WINDOW_WIDTH_DEFAULT;

verus! {

pub open spec fn spec_next_monitor_choice(current: Option<usize>, monitor_count: usize) -> Option<usize> {
    if monitor_count < 2 {
        None
    } else {
        let c = match current {
            Some(c) => c as int,
            None => 0,
        };
        Some(((c + 1) % (monitor_count as int)) as usize)
    }
}

/// The monitor to flip to, `None` when there is nothing to flip between.
///
/// A single monitor is the lecturer's own. Flipping onto it would fullscreen the audience view
/// over the lecturer's work, which is worse than doing nothing.
pub fn next_monitor_choice(current: Option<usize>, monitor_count: usize) -> (r: Option<usize>)
    ensures
        r == spec_next_monitor_choice(current, monitor_count),
        r matches Some(i) ==> i < monitor_count,
{
    if monitor_count < 2 {
        return None;
    }
    let c: usize = match current {
        Some(c) => c,
        None => 0,
    };
    proof {
        let n = monitor_count as int;
        let ci = c as int;
        assert((ci % n + 1) % n == (ci + 1) % n) by (nonlinear_arith)
            requires
                n >= 2,
                ci >= 0,
        {
            vstd::arithmetic::div_mod::lemma_add_mod_noop(ci, 1, n);
            vstd::arithmetic::div_mod::lemma_small_mod(1, n as nat);
        };
        assert(0 <= ci % n < n) by (nonlinear_arith)
            requires
                n >= 2,
        ;
    }
    Some((c % monitor_count + 1) % monitor_count)
}

/// Flipping visits every monitor in turn: `k` flips from monitor `c` land on `(c + k) mod n`.
pub open spec fn flipped_times(c: usize, monitor_count: usize, k: nat) -> Option<usize>
    decreases k,
{
    if k == 0 {
        Some(c)
    } else {
        match flipped_times(c, monitor_count, (k - 1) as nat) {
            Some(d) => spec_next_monitor_choice(Some(d), monitor_count),
            None => None,
        }
    }
}

/// Flipping cycles every monitor, the lecturer's included: `k` flips from monitor `c` of `n`
/// land on monitor `(c + k) mod n`, so `n` flips come back and every monitor is visited.
pub proof fn law_flipping_cycles_every_monitor(c: usize, monitor_count: usize, k: nat)
    requires
        monitor_count >= 2,
        c < monitor_count,
    ensures
        flipped_times(c, monitor_count, k) == Some(((c + k) % (monitor_count as int)) as usize),
    decreases k,
{
    if k > 0 {
        law_flipping_cycles_every_monitor(c, monitor_count, (k - 1) as nat);
        let n = monitor_count as int;
        let prev = (c + (k - 1)) % n;
        assert(0 <= prev < n) by (nonlinear_arith)
            requires
                n >= 2,
                prev == (c + (k - 1)) % n,
        ;
        assert((prev + 1) % n == (c + k) % n) by {
            vstd::arithmetic::div_mod::lemma_add_mod_noop(c + (k - 1), 1, n);
            vstd::arithmetic::div_mod::lemma_small_mod(1, n as nat);
        };
        assert(flipped_times(c, monitor_count, (k - 1) as nat) == Some(prev as usize));
        assert(spec_next_monitor_choice(Some(prev as usize), monitor_count) == Some(
            ((prev + 1) % n) as usize,
        ));
    } else {
        vstd::arithmetic::div_mod::lemma_small_mod(c as nat, monitor_count as nat);
    }
}

/// With fewer than two monitors there is nothing to flip to.
pub proof fn law_single_monitor_has_nothing_to_flip_to(current: Option<usize>, monitor_count: usize)
    requires
        monitor_count < 2,
    ensures
        spec_next_monitor_choice(current, monitor_count) is None,
{
}

/// Index of the first monitor that does not show the lecturer's window, 0 if there is none.
pub fn default_monitor_index(shows_lecturer: &Vec<bool>) -> (i: usize)
    ensures
        (exists|j: int| 0 <= j < shows_lecturer@.len() && !shows_lecturer@[j]) ==> {
            &&& i < shows_lecturer@.len()
            &&& !shows_lecturer@[i as int]
            &&& forall|j: int| 0 <= j < i ==> shows_lecturer@[j]
        },
        (forall|j: int| 0 <= j < shows_lecturer@.len() ==> shows_lecturer@[j]) ==> i == 0,
{
    let mut i: usize = 0;
    while i < shows_lecturer.len()
        invariant
            i <= shows_lecturer@.len(),
            forall|j: int| 0 <= j < i ==> shows_lecturer@[j],
        decreases shows_lecturer@.len() - i,
    {
        if !shows_lecturer[i] {
            return i;
        }
        i = i + 1;
    }
    0
}

pub open spec fn spec_audience_monitor(choice: Option<usize>, monitor_count: usize, default_index: usize) -> Option<usize> {
    if monitor_count == 0 {
        None
    } else {
        match choice {
            Some(c) => Some((c % monitor_count) as usize),
            None => if monitor_count > 1 {
                Some(default_index)
            } else {
                None
            },
        }
    }
}

/// The monitor to show the audience window on: the flipped choice, else the default one.
/// A single monitor is the lecturer's own, so then there is no audience monitor.
pub fn audience_monitor(choice: Option<usize>, monitor_count: usize, default_index: usize) -> (r:
    Option<usize>)
    ensures
        r == spec_audience_monitor(choice, monitor_count, default_index),
{
    if monitor_count == 0 {
        return None;
    }
    match choice {
        Some(c) => Some(c % monitor_count),
        None => if monitor_count > 1 {
            Some(default_index)
        } else {
            None
        },
    }
}

/// The monitor choice after a flip: from the current choice, or from the default monitor when
/// there is none yet. `None` when there is nothing to flip between; the choice then stays.
pub fn flipped_monitor_choice(choice: Option<usize>, monitor_count: usize, default_index: usize) -> (r:
    Option<usize>)
    ensures
        r == spec_next_monitor_choice(
            match choice {
                Some(c) => Some(c),
                None => Some(default_index),
            },
            monitor_count,
        ),
{
    let current = match choice {
        Some(c) => Some(c),
        None => Some(default_index),
    };
    next_monitor_choice(current, monitor_count)
}

pub open spec fn spec_page_ratio_height(page_width: int, page_height: int) -> Option<i32> {
    if page_width <= 0 || page_height <= 0 {
        None
    } else {
        let h = (2 * WINDOW_WIDTH_DEFAULT * page_height + page_width) / (2 * page_width);
        Some(
            if h > i32::MAX {
                i32::MAX
            } else {
                h as i32
            },
        )
    }
}

/// Window height, at the default width, that gives the window the ratio of the page:
/// `WINDOW_WIDTH_DEFAULT * height / width` rounded half up, at most `i32::MAX`.
/// `None` for a page without area.
pub fn page_ratio_height(page_width: i64, page_height: i64) -> (r: Option<i32>)
    requires
        page_width <= crate::geometry::COORD_MAX,
        page_height <= crate::geometry::COORD_MAX,
    ensures
        r == spec_page_ratio_height(page_width as int, page_height as int),
{
    if page_width <= 0 || page_height <= 0 {
        return None;
    }
    proof {
        assert(0 < 2 * WINDOW_WIDTH_DEFAULT * page_height <= 2 * WINDOW_WIDTH_DEFAULT * crate::geometry::COORD_MAX)
            by (nonlinear_arith)
            requires
                0 < page_height <= crate::geometry::COORD_MAX,
        ;
    }
    let numerator: i128 = 2 * (WINDOW_WIDTH_DEFAULT as i128) * (page_height as i128) + (
    page_width as i128);
    let denominator: i128 = 2 * (page_width as i128);
    let h: i128 = numerator / denominator;
    if h > 0x7fff_ffff {
        Some(0x7fff_ffff)
    } else {
        Some(h as i32)
    }
}

/// With a flipped choice `c` the audience window goes to monitor `c mod n` of the `n`
/// monitors, whatever the default monitor is: the choice itself when it names a monitor.
pub proof fn law_audience_follows_the_flipped_choice(
    c: usize,
    monitor_count: usize,
    first_default: usize,
    second_default: usize,
)
    requires
        monitor_count >= 1,
    ensures
        spec_audience_monitor(Some(c), monitor_count, first_default) == Some(
            (c as int % monitor_count as int) as usize,
        ),
        c < monitor_count ==> spec_audience_monitor(Some(c), monitor_count, first_default) == Some(
            c,
        ),
        spec_audience_monitor(Some(c), monitor_count, first_default) == spec_audience_monitor(
            Some(c),
            monitor_count,
            second_default,
        ),
{
    if c < monitor_count {
        vstd::arithmetic::div_mod::lemma_small_mod(c as nat, monitor_count as nat);
    }
}

/// A flip picks the monitor the audience window then goes to: showing the flipped choice
/// lands on exactly that monitor, never on another one such as the lecturer's.
pub proof fn law_flipped_monitor_is_shown(choice: Option<usize>, monitor_count: usize, default_index: usize)
    requires
        monitor_count >= 2,
    ensures
        ({
            let flipped = spec_next_monitor_choice(
                match choice {
                    Some(c) => Some(c),
                    None => Some(default_index),
                },
                monitor_count,
            );
            &&& flipped is Some
            &&& (flipped->0 as int) < (monitor_count as int)
            &&& spec_audience_monitor(flipped, monitor_count, default_index) == flipped
        }),
{
    let c = match choice {
        Some(c) => c as int,
        None => default_index as int,
    };
    let n = monitor_count as int;
    assert(0 <= (c + 1) % n < n) by (nonlinear_arith)
        requires
            n >= 2,
    ;
    vstd::arithmetic::div_mod::lemma_small_mod(((c + 1) % n) as nat, n as nat);
}

/// Without a flipped choice the audience window goes to the default monitor when there are
/// several monitors, and nowhere on a single monitor, the lecturer's own, or none.
pub proof fn law_audience_defaults_without_a_choice(monitor_count: usize, default_index: usize)
    ensures
        monitor_count >= 2 ==> spec_audience_monitor(None, monitor_count, default_index) == Some(
            default_index,
        ),
        monitor_count < 2 ==> spec_audience_monitor(None, monitor_count, default_index) is None,
        monitor_count == 0 ==> forall|c: usize| #[trigger]
            spec_audience_monitor(Some(c), monitor_count, default_index) is None,
{
}

} // verus!
