//! The goal list: which goals are shown, which one the cursor is on, and
//! what the keys typed over the list are taken for.

use vstd::multiset::Multiset;
use vstd::prelude::*;
use vstd::string::StrSliceExecFns;
use vstd::string::StringExecFns;
use crate::config::BeeConfig;
use crate::model::opt_text;
use crate::goals::{comes_before, goal_precedes, GoalSummary};
use crate::stamp::{has_entry_today, same_day};
use crate::state::{clamp_index, clamped, MainInput, Screen, StatusKind, StatusMessage};
use crate::text::{lowered, to_lower};

verus! {

/// Whether `needle` stands in `hay` at `i`.
pub open spec fn stands_at(hay: Seq<char>, needle: Seq<char>, i: int) -> bool {
    0 <= i && i + needle.len() <= hay.len() && hay.subrange(i, i + needle.len()) == needle
}

/// Whether `hay` holds `needle`.
pub open spec fn holds(hay: Seq<char>, needle: Seq<char>) -> bool {
    exists|i: int| stands_at(hay, needle, i)
}

/// Whether `needle` stands in `hay` at `i`.
fn found_at(hay: &str, n: usize, needle: &str, m: usize, i: usize) -> (r: bool)
    requires
        n == hay@.len(),
        m == needle@.len(),
        i + m <= n,
    ensures
        r == stands_at(hay@, needle@, i as int),
{
    let mut k: usize = 0;
    while k < m
        invariant
            n == hay@.len(),
            m == needle@.len(),
            i + m <= n,
            0 <= k <= m,
            forall|q: int| 0 <= q < k ==> hay@[i + q] == needle@[q],
        decreases m - k,
    {
        if hay.get_char(i + k) != needle.get_char(k) {
            proof {
                assert(hay@.subrange(i as int, i + m)[k as int] == hay@[i + k]);
            }
            return false;
        }
        k = k + 1;
    }
    proof {
        assert(hay@.subrange(i as int, i + m) =~= needle@);
    }
    true
}

/// Whether `hay` holds `needle`.
pub fn contains(hay: &str, needle: &str) -> (r: bool)
    ensures
        r == holds(hay@, needle@),
{
    let n: usize = hay.unicode_len();
    let m: usize = needle.unicode_len();
    if m > n {
        return false;
    }
    let last: usize = n - m;
    let mut i: usize = 0;
    while i < last
        invariant
            n == hay@.len(),
            m == needle@.len(),
            last == n - m,
            0 <= i <= last,
            forall|q: int| 0 <= q < i ==> !stands_at(hay@, needle@, q),
        decreases last - i,
    {
        if found_at(hay, n, needle, m, i) {
            return true;
        }
        i = i + 1;
    }
    found_at(hay, n, needle, m, last)
}

/// Whether a goal passes the filter `needle`: every goal passes the empty
/// filter, and another one is passed by the goals whose slug or title holds
/// it, capitals counting as small letters.
pub open spec fn passes(goal: GoalSummary, needle: Seq<char>) -> bool {
    needle.len() == 0 || holds(lowered(goal.slug@), needle) || holds(lowered(goal.title@), needle)
}

/// The places, in ascending order, of the goals that pass the filter.
pub open spec fn passing(goals: Seq<GoalSummary>, needle: Seq<char>) -> Seq<usize>
    decreases goals.len(),
{
    if goals.len() == 0 {
        Seq::<usize>::empty()
    } else {
        let rest = passing(goals.drop_last(), needle);
        if passes(goals.last(), needle) {
            rest.push((goals.len() - 1) as usize)
        } else {
            rest
        }
    }
}

/// Whether a goal passes the filter `needle`.
pub fn passes_filter(goal: &GoalSummary, needle: &str) -> (r: bool)
    ensures
        r == passes(*goal, needle@),
{
    if needle.unicode_len() == 0 {
        return true;
    }
    let slug = to_lower(goal.slug.as_str());
    if contains(slug.as_str(), needle) {
        return true;
    }
    let title = to_lower(goal.title.as_str());
    contains(title.as_str(), needle)
}

/// The order of two goals in the list at the moment `now`, in the local time
/// of `offset`; see [`comes_before`].
pub open spec fn listed_before(a: GoalSummary, b: GoalSummary, now: int, offset: int) -> bool {
    comes_before(
        same_day(a.lastday as int, now, offset),
        a.safebuf,
        same_day(b.lastday as int, now, offset),
        b.safebuf,
    )
}

/// Whether no goal of a list comes before one that stands earlier in it.
pub open spec fn in_order(goals: Seq<GoalSummary>, now: int, offset: int) -> bool {
    forall|p: int, q: int|
        0 <= p < q < goals.len() ==> !listed_before(
            #[trigger] goals[q],
            #[trigger] goals[p],
            now,
            offset,
        )
}

/// Whether `origin` tells of each goal of `sorted` where it stood in `goals`,
/// so that `sorted` holds the goals of `goals`, each once, and goals that are
/// alike in the order of the list stand as they stood in `goals`.
pub open spec fn keeps_order(
    goals: Seq<GoalSummary>,
    sorted: Seq<GoalSummary>,
    origin: Seq<int>,
    now: int,
    offset: int,
) -> bool {
    &&& origin.len() == sorted.len()
    &&& sorted.len() == goals.len()
    &&& forall|p: int|
        0 <= p < sorted.len() ==> 0 <= #[trigger] origin[p] < goals.len() && sorted[p]
            == goals[origin[p]]
    &&& forall|p: int, q: int|
        0 <= p < q < sorted.len() ==> #[trigger] origin[p] != #[trigger] origin[q]
    &&& forall|p: int, q: int|
        0 <= p < q < sorted.len() && !listed_before(sorted[p], sorted[q], now, offset)
            ==> #[trigger] origin[p] < #[trigger] origin[q]
}

/// Inserting into a sequence adds one element to what it holds.
proof fn lemma_insert_multiset(s: Seq<GoalSummary>, i: int, x: GoalSummary)
    requires
        0 <= i <= s.len(),
    ensures
        s.insert(i, x).to_multiset() == s.to_multiset().insert(x),
{
    broadcast use vstd::seq_lib::group_to_multiset_ensures;

    let t = s.insert(i, x);
    assert(t.remove(i) =~= s);
    assert(t[i] == x);
    vstd::seq_lib::to_multiset_remove(t, i);
    assert(t.contains(x));
    assert(t.to_multiset().count(x) > 0);
    assert(t.to_multiset() =~= s.to_multiset().insert(x));
}

/// Whether two goals are listed in this order.
fn precedes(a: &GoalSummary, b: &GoalSummary, now: i64, offset: i32) -> (r: bool)
    ensures
        r == listed_before(*a, *b, now as int, offset as int),
{
    goal_precedes(
        has_entry_today(a.lastday, now, offset),
        a.safebuf,
        has_entry_today(b.lastday, now, offset),
        b.safebuf,
    )
}

/// Whether the goals sorted so far are the first `done` goals of `goals`, in
/// the order of the list, with alike goals as they stood.
spec fn sorted_so_far(
    goals: Seq<GoalSummary>,
    sorted: Seq<GoalSummary>,
    origin: Seq<int>,
    done: int,
    now: int,
    offset: int,
) -> bool {
    &&& origin.len() == sorted.len()
    &&& sorted.len() == done
    &&& forall|p: int|
        0 <= p < sorted.len() ==> 0 <= #[trigger] origin[p] < done && sorted[p] == goals[origin[p]]
    &&& forall|p: int, q: int|
        0 <= p < q < sorted.len() ==> #[trigger] origin[p] != #[trigger] origin[q]
    &&& forall|p: int, q: int|
        0 <= p < q < sorted.len() && !listed_before(sorted[p], sorted[q], now, offset)
            ==> #[trigger] origin[p] < #[trigger] origin[q]
}

/// Putting the next goal before the first goal that it comes before keeps
/// the goals in order, with alike goals as they stood.
#[verifier::rlimit(40)]
proof fn lemma_insert_keeps_order(
    goals: Seq<GoalSummary>,
    sorted: Seq<GoalSummary>,
    origin: Seq<int>,
    done: int,
    pos: int,
    now: int,
    offset: int,
)
    requires
        0 <= done < goals.len(),
        0 <= pos <= sorted.len(),
        in_order(sorted, now, offset),
        sorted_so_far(goals, sorted, origin, done, now, offset),
        forall|p: int| 0 <= p < pos ==> !listed_before(goals[done], #[trigger] sorted[p], now, offset),
        pos < sorted.len() ==> listed_before(goals[done], sorted[pos], now, offset),
    ensures
        in_order(sorted.insert(pos, goals[done]), now, offset),
        sorted_so_far(
            goals,
            sorted.insert(pos, goals[done]),
            origin.insert(pos, done),
            done + 1,
            now,
            offset,
        ),
{
    let x = goals[done];
    let next = sorted.insert(pos, x);
    let from = origin.insert(pos, done);
    assert forall|p: int| 0 <= p < next.len() implies 0 <= #[trigger] from[p] < done + 1 && next[p]
        == goals[from[p]] by {
        if p < pos {
            assert(from[p] == origin[p] && next[p] == sorted[p]);
        } else if p > pos {
            assert(from[p] == origin[p - 1] && next[p] == sorted[p - 1]);
        }
    }
    assert forall|p: int, q: int| 0 <= p < q < next.len() implies #[trigger] from[p]
        != #[trigger] from[q] by {
        let a = if p < pos { p } else { p - 1 };
        let b = if q < pos { q } else { q - 1 };
        if p != pos && q != pos {
            assert(from[p] == origin[a] && from[q] == origin[b]);
        } else if p == pos {
            assert(from[q] == origin[b]);
        } else {
            assert(from[p] == origin[a]);
        }
    }
    assert forall|p: int, q: int| 0 <= p < q < next.len() implies !listed_before(
        #[trigger] next[q],
        #[trigger] next[p],
        now,
        offset,
    ) by {
        if q < pos {
            assert(next[p] == sorted[p] && next[q] == sorted[q]);
        } else if q == pos {
            assert(next[p] == sorted[p]);
        } else if p < pos {
            assert(next[p] == sorted[p] && next[q] == sorted[q - 1]);
        } else if p == pos {
            assert(next[q] == sorted[q - 1]);
            assert(listed_before(x, sorted[pos], now, offset));
            if q - 1 > pos {
                assert(!listed_before(sorted[q - 1], sorted[pos], now, offset));
            }
        } else {
            assert(next[p] == sorted[p - 1] && next[q] == sorted[q - 1]);
        }
    }
    assert forall|p: int, q: int|
        0 <= p < q < next.len() && !listed_before(next[p], next[q], now, offset) implies #[trigger] from[p]
            < #[trigger] from[q] by {
        if q < pos {
            assert(next[p] == sorted[p] && next[q] == sorted[q]);
            assert(from[p] == origin[p] && from[q] == origin[q]);
        } else if q == pos {
            assert(from[p] == origin[p]);
        } else if p < pos {
            assert(next[p] == sorted[p] && next[q] == sorted[q - 1]);
            assert(from[p] == origin[p] && from[q] == origin[q - 1]);
        } else if p == pos {
            assert(next[q] == sorted[q - 1]);
            assert(listed_before(x, sorted[pos], now, offset));
            if q - 1 > pos {
                assert(!listed_before(sorted[q - 1], sorted[pos], now, offset));
            }
            assert(listed_before(x, sorted[q - 1], now, offset));
        } else {
            assert(next[p] == sorted[p - 1] && next[q] == sorted[q - 1]);
            assert(from[p] == origin[p - 1] && from[q] == origin[q - 1]);
        }
    }
}

/// The goals in the order of the list: those without a datapoint today
/// first, and among goals alike in that, those with fewer days left first.
/// Goals alike in both stand as they stood.
#[verifier::rlimit(40)]
pub fn sort_goals(goals: Vec<GoalSummary>, now: i64, offset: i32) -> (sorted: Vec<GoalSummary>)
    ensures
        in_order(sorted@, now as int, offset as int),
        sorted@.to_multiset() == goals@.to_multiset(),
        exists|origin: Seq<int>| keeps_order(goals@, sorted@, origin, now as int, offset as int),
{
    let mut rest = goals;
    let mut sorted: Vec<GoalSummary> = Vec::new();
    let ghost mut origin: Seq<int> = Seq::<int>::empty();
    let ghost mut done: int = 0;
    proof {
        assert(sorted@.to_multiset().add(rest@.to_multiset()) =~= goals@.to_multiset()) by {
            broadcast use vstd::seq_lib::group_to_multiset_ensures;

            assert(sorted@.to_multiset() =~= Multiset::<GoalSummary>::empty());
        }
        assert(rest@ =~= goals@.skip(0));
    }
    while rest.len() > 0
        invariant
            0 <= done <= goals@.len(),
            rest@ == goals@.skip(done),
            in_order(sorted@, now as int, offset as int),
            sorted_so_far(goals@, sorted@, origin, done, now as int, offset as int),
            sorted@.to_multiset().add(rest@.to_multiset()) == goals@.to_multiset(),
        decreases rest.len(),
    {
        let ghost rest_before = rest@;
        let ghost sorted_before = sorted@;
        let x = rest.remove(0);
        proof {
            assert(x == goals@[done]);
            assert(rest@ =~= goals@.skip(done + 1));
        }
        let mut pos: usize = 0;
        while pos < sorted.len() && !precedes(&x, &sorted[pos], now, offset)
            invariant
                0 <= pos <= sorted.len(),
                sorted@ == sorted_before,
                forall|p: int|
                    0 <= p < pos ==> !listed_before(
                        x,
                        #[trigger] sorted@[p],
                        now as int,
                        offset as int,
                    ),
            decreases sorted.len() - pos,
        {
            pos = pos + 1;
        }
        sorted.insert(pos, x);
        proof {
            lemma_insert_multiset(sorted_before, pos as int, x);
            vstd::seq_lib::to_multiset_remove(rest_before, 0);
            assert(rest_before.to_multiset().count(x) > 0) by {
                broadcast use vstd::seq_lib::group_to_multiset_ensures;

                assert(rest_before.contains(rest_before[0]));
            }
            assert(sorted@.to_multiset().add(rest@.to_multiset()) =~= goals@.to_multiset());
            lemma_insert_keeps_order(
                goals@,
                sorted_before,
                origin,
                done,
                pos as int,
                now as int,
                offset as int,
            );
            origin = origin.insert(pos as int, done);
            done = done + 1;
        }
    }
    proof {
        assert(rest@ =~= Seq::<GoalSummary>::empty());
        assert(sorted@.to_multiset().add(rest@.to_multiset()) =~= sorted@.to_multiset()) by {
            broadcast use vstd::seq_lib::group_to_multiset_ensures;

            assert(rest@.to_multiset() =~= Multiset::<GoalSummary>::empty());
        }
        assert(done == goals@.len());
        assert(keeps_order(goals@, sorted@, origin, now as int, offset as int));
    }
    sorted
}

/// The state of the program: the goals, the list over them, and the screen.
#[derive(Debug, PartialEq, Eq)]
pub struct App {
    pub config: BeeConfig,
    /// The goals, in the order of the list.
    pub goals: Vec<GoalSummary>,
    /// The places in `goals` of the goals that pass the filter.
    pub filtered: Vec<usize>,
    pub filter: String,
    /// The filter as it was before it was taken up for editing.
    pub filter_backup: Option<String>,
    /// The place in `filtered` of the goal under the cursor.
    pub selected: Option<usize>,
    /// The place in `filtered` of the first goal on the screen.
    pub offset: usize,
    pub main_input: MainInput,
    pub screen: Screen,
    pub status: Option<StatusMessage>,
    /// The goal that a datapoint was last added to, and when, in
    /// milliseconds on the caller's clock.
    pub last_success_goal: Option<(String, u64)>,
}

/// The mathematical value of a [`MainInput`].
pub enum InputModeView {
    Normal,
    InlineAdd(Seq<char>),
    Filter(Seq<char>),
}

/// The mathematical value of a [`StatusMessage`].
pub struct NoticeView {
    pub kind: StatusKind,
    pub text: Seq<char>,
    pub created: u64,
}

/// The part of the state that the keys of the goal list change.
pub struct ListView {
    pub filtered: Seq<usize>,
    pub filter: Seq<char>,
    pub filter_backup: Option<Seq<char>>,
    pub selected: Option<usize>,
    pub offset: usize,
    pub input: InputModeView,
    pub status: Option<NoticeView>,
}

/// The value of an input mode.
pub open spec fn input_view(i: MainInput) -> InputModeView {
    match i {
        MainInput::Normal => InputModeView::Normal,
        MainInput::InlineAdd { buffer } => InputModeView::InlineAdd(buffer@),
        MainInput::Filter { buffer } => InputModeView::Filter(buffer@),
    }
}

/// The value of an optional notice.
pub open spec fn notice_view(s: Option<StatusMessage>) -> Option<NoticeView> {
    match s {
        Some(m) => Some(NoticeView { kind: m.kind, text: m.text@, created: m.created }),
        None => None,
    }
}

/// The filter with which the goals are compared: capitals count as small letters.
pub open spec fn needle_of(filter: Seq<char>) -> Seq<char> {
    lowered(filter)
}

/// The list after the goals were filtered anew: it shows the goals that pass
/// the filter, from the first on, and the cursor stays where it was unless
/// the list has become shorter than that.
pub open spec fn refreshed(goals: Seq<GoalSummary>, l: ListView) -> ListView {
    let shown = passing(goals, needle_of(l.filter));
    ListView {
        filtered: shown,
        selected: if shown.len() == 0 {
            None
        } else {
            let at = match l.selected {
                Some(s) => s,
                None => 0,
            };
            Some(
                if at < shown.len() {
                    at
                } else {
                    (shown.len() - 1) as usize
                },
            )
        },
        offset: 0,
        ..l
    }
}

/// The place in the goals of the goal under the cursor.
pub open spec fn cursor_goal(goals: Seq<GoalSummary>, l: ListView) -> Option<usize> {
    match l.selected {
        Some(s) => if s < l.filtered.len() && l.filtered[s as int] < goals.len() {
            Some(l.filtered[s as int])
        } else {
            None
        },
        None => None,
    }
}

/// The first place at or after `from` in the list that shows a goal named `slug`.
pub open spec fn place_of_slug(
    goals: Seq<GoalSummary>,
    filtered: Seq<usize>,
    slug: Seq<char>,
    from: int,
) -> Option<int>
    decreases filtered.len() - from,
{
    if from < 0 || from >= filtered.len() {
        None
    } else if filtered[from] < goals.len() && goals[filtered[from] as int].slug@ == slug {
        Some(from)
    } else {
        place_of_slug(goals, filtered, slug, from + 1)
    }
}

/// The list with a notice put up.
pub open spec fn noticed(l: ListView, kind: StatusKind, text: Seq<char>, now: u64) -> ListView {
    ListView { status: Some(NoticeView { kind, text, created: now }), ..l }
}

/// The list with the cursor on the goal named `slug`, where the list shows it.
pub open spec fn slug_selected(goals: Seq<GoalSummary>, l: ListView, slug: Seq<char>)
    -> ListView {
    match place_of_slug(goals, l.filtered, slug, 0) {
        Some(p) => ListView { selected: Some(p as usize), ..l },
        None => l,
    }
}

/// The list after the cursor moved by `delta` goals.
pub open spec fn selection_moved(l: ListView, delta: i32) -> ListView {
    if l.filtered.len() == 0 {
        l
    } else {
        let from = match l.selected {
            Some(s) => s,
            None => 0,
        };
        ListView {
            selected: Some(clamped(from, delta, (l.filtered.len() - 1) as usize) as usize),
            ..l
        }
    }
}

/// The list with the filter taken up for editing.
pub open spec fn filter_entered(l: ListView) -> ListView {
    ListView { filter_backup: Some(l.filter), input: InputModeView::Filter(l.filter), ..l }
}

/// The list with the filter as it was before it was taken up.
pub open spec fn filter_cancelled(goals: Seq<GoalSummary>, l: ListView) -> ListView {
    match l.filter_backup {
        Some(prev) => ListView {
            input: InputModeView::Normal,
            ..refreshed(goals, ListView { filter: prev, filter_backup: None, ..l })
        },
        None => ListView { input: InputModeView::Normal, ..l },
    }
}

/// The list with `buffer` as its filter.
pub open spec fn filter_applied(goals: Seq<GoalSummary>, l: ListView, buffer: Seq<char>)
    -> ListView {
    ListView {
        filter_backup: None,
        input: InputModeView::Normal,
        ..refreshed(goals, ListView { filter: buffer, ..l })
    }
}

/// The list while the filter is typed: it is filtered by what was typed so far.
pub open spec fn filter_typed(goals: Seq<GoalSummary>, l: ListView, buffer: Seq<char>)
    -> ListView {
    ListView {
        input: InputModeView::Filter(buffer),
        ..refreshed(goals, ListView { filter: buffer, ..l })
    }
}

/// The list after a datapoint was asked to be typed beside the goal under
/// the cursor: without such a goal, a notice says so.
pub open spec fn inline_add_started(goals: Seq<GoalSummary>, l: ListView, now: u64) -> ListView {
    if cursor_goal(goals, l) is Some {
        ListView { input: InputModeView::InlineAdd(Seq::<char>::empty()), ..l }
    } else {
        noticed(l, StatusKind::Info, "No goal selected"@, now)
    }
}

/// The list after notices that have been up for too long were taken down.
pub open spec fn expired_cleared(l: ListView, now: u64) -> ListView {
    match l.status {
        Some(n) => if now > n.created && now - n.created > crate::state::STATUS_TTL {
            ListView { status: None, ..l }
        } else {
            l
        },
        None => l,
    }
}

impl App {
    /// The part of the state that the keys of the goal list change.
    pub open spec fn list(&self) -> ListView {
        ListView {
            filtered: self.filtered@,
            filter: self.filter@,
            filter_backup: opt_text(self.filter_backup),
            selected: self.selected,
            offset: self.offset,
            input: input_view(self.main_input),
            status: notice_view(self.status),
        }
    }

    /// Whether two states agree in what the keys of the goal list leave alone.
    pub open spec fn same_rest(&self, other: &App) -> bool {
        &&& self.config == other.config
        &&& self.goals == other.goals
        &&& self.screen == other.screen
        &&& self.last_success_goal == other.last_success_goal
    }

    /// The state at the start: no goals, no filter, the goal list on the screen.
    pub fn new(config: BeeConfig) -> (app: App)
        ensures
            app.config == config,
            app.goals@.len() == 0,
            app.screen is Main,
            app.last_success_goal is None,
            app.list() == (ListView {
                filtered: Seq::<usize>::empty(),
                filter: Seq::<char>::empty(),
                filter_backup: None,
                selected: None,
                offset: 0,
                input: InputModeView::Normal,
                status: None,
            }),
    {
        App {
            config,
            goals: Vec::new(),
            filtered: Vec::new(),
            filter: String::new(),
            filter_backup: None,
            selected: None,
            offset: 0,
            main_input: MainInput::Normal,
            screen: Screen::Main,
            status: None,
            last_success_goal: None,
        }
    }

    /// Filters the goals anew.
    pub fn refresh_filtered(&mut self)
        ensures
            final(self).list() == refreshed(old(self).goals@, old(self).list()),
            final(self).same_rest(old(self)),
    {
        let needle = to_lower(self.filter.as_str());
        let mut shown: Vec<usize> = Vec::new();
        let mut i: usize = 0;
        while i < self.goals.len()
            invariant
                0 <= i <= self.goals.len(),
                *self == *old(self),
                needle@ == needle_of(self.filter@),
                shown@ == passing(self.goals@.take(i as int), needle@),
            decreases self.goals.len() - i,
        {
            proof {
                assert(self.goals@.take(i as int + 1).drop_last() =~= self.goals@.take(i as int));
            }
            if passes_filter(&self.goals[i], needle.as_str()) {
                shown.push(i);
            }
            i = i + 1;
        }
        proof {
            assert(self.goals@.take(self.goals.len() as int) =~= self.goals@);
        }
        if shown.len() == 0 {
            self.selected = None;
        } else {
            let at = match self.selected {
                Some(s) => s,
                None => 0,
            };
            self.selected = Some(
                if at < shown.len() {
                    at
                } else {
                    shown.len() - 1
                },
            );
        }
        self.filtered = shown;
        self.offset = 0;
    }

    /// The place in the goals of the goal under the cursor.
    pub fn selected_goal_index(&self) -> (r: Option<usize>)
        ensures
            r == cursor_goal(self.goals@, self.list()),
    {
        match self.selected {
            Some(s) => {
                if s < self.filtered.len() && self.filtered[s] < self.goals.len() {
                    Some(self.filtered[s])
                } else {
                    None
                }
            },
            None => None,
        }
    }

    /// The goal under the cursor.
    pub fn selected_goal(&self) -> (r: Option<&GoalSummary>)
        ensures
            match r {
                Some(g) => cursor_goal(self.goals@, self.list()) is Some && *g == self.goals@[cursor_goal(
                    self.goals@,
                    self.list(),
                )->0 as int],
                None => cursor_goal(self.goals@, self.list()) is None,
            },
    {
        match self.selected_goal_index() {
            Some(i) => Some(&self.goals[i]),
            None => None,
        }
    }

    /// Puts the cursor on the goal named `slug`, where the list shows it.
    pub fn select_goal_by_slug(&mut self, slug: &str)
        ensures
            final(self).list() == slug_selected(old(self).goals@, old(self).list(), slug@),
            final(self).same_rest(old(self)),
    {
        let mut p: usize = 0;
        while p < self.filtered.len()
            invariant
                0 <= p <= self.filtered.len(),
                *self == *old(self),
                place_of_slug(self.goals@, self.filtered@, slug@, 0) == place_of_slug(
                    self.goals@,
                    self.filtered@,
                    slug@,
                    p as int,
                ),
            decreases self.filtered.len() - p,
        {
            let i = self.filtered[p];
            if i < self.goals.len() && crate::text::same_text(self.goals[i].slug.as_str(), slug) {
                self.selected = Some(p);
                return ;
            }
            p = p + 1;
        }
    }

    /// Puts up a notice.
    pub fn set_status(&mut self, kind: StatusKind, text: String, now: u64)
        ensures
            final(self).list() == noticed(old(self).list(), kind, text@, now),
            final(self).same_rest(old(self)),
    {
        self.status = Some(StatusMessage { kind, text, created: now });
    }

    /// Takes down a notice that has been up for too long.
    pub fn clear_expired_status(&mut self, now: u64)
        ensures
            final(self).list() == expired_cleared(old(self).list(), now),
            final(self).same_rest(old(self)),
    {
        let expired = match &self.status {
            Some(m) => m.is_expired(now),
            None => false,
        };
        if expired {
            self.status = None;
        }
    }

    /// Takes up the filter for editing.
    pub fn enter_filter_mode(&mut self)
        ensures
            final(self).list() == filter_entered(old(self).list()),
            final(self).same_rest(old(self)),
    {
        self.filter_backup = Some(self.filter.clone());
        self.main_input = MainInput::Filter { buffer: self.filter.clone() };
    }

    /// Gives up editing the filter, and brings back the filter as it was.
    pub fn cancel_filter_mode(&mut self)
        ensures
            final(self).list() == filter_cancelled(old(self).goals@, old(self).list()),
            final(self).same_rest(old(self)),
    {
        match self.filter_backup.take() {
            Some(prev) => {
                self.filter = prev;
                self.refresh_filtered();
            },
            None => {},
        }
        self.main_input = MainInput::Normal;
    }

    /// Makes `buffer` the filter.
    pub fn apply_filter(&mut self, buffer: String)
        ensures
            final(self).list() == filter_applied(old(self).goals@, old(self).list(), buffer@),
            final(self).same_rest(old(self)),
    {
        self.filter = buffer;
        self.refresh_filtered();
        self.filter_backup = None;
        self.main_input = MainInput::Normal;
    }

    /// Asks for the text of a datapoint for the goal under the cursor.
    pub fn start_inline_add(&mut self, now: u64)
        ensures
            final(self).list() == inline_add_started(old(self).goals@, old(self).list(), now),
            final(self).same_rest(old(self)),
    {
        if self.selected_goal_index().is_some() {
            self.main_input = MainInput::InlineAdd { buffer: String::new() };
        } else {
            self.set_status(StatusKind::Info, String::from_str("No goal selected"), now);
        }
    }

    /// Gives up typing a datapoint.
    pub fn cancel_inline_add(&mut self)
        ensures
            final(self).list() == (ListView { input: InputModeView::Normal, ..old(self).list() }),
            final(self).same_rest(old(self)),
    {
        self.main_input = MainInput::Normal;
    }

    /// Moves the cursor by `delta` goals, and keeps it on the list.
    pub fn move_main_selection(&mut self, delta: i32)
        ensures
            final(self).list() == selection_moved(old(self).list(), delta),
            final(self).same_rest(old(self)),
    {
        if self.filtered.len() == 0 {
            return ;
        }
        let from = match self.selected {
            Some(s) => s,
            None => 0,
        };
        let next = clamp_index(from, delta, self.filtered.len() - 1);
        self.selected = Some(next);
    }

    /// Takes over goals that were fetched: puts them in the order of the
    /// list at the moment `now`, in the local time of `offset`, and filters them.
    pub fn refresh_goals(&mut self, goals: Vec<GoalSummary>, now: i64, offset: i32)
        ensures
            in_order(final(self).goals@, now as int, offset as int),
            final(self).goals@.to_multiset() == goals@.to_multiset(),
            exists|origin: Seq<int>|
                keeps_order(goals@, final(self).goals@, origin, now as int, offset as int),
            final(self).list() == refreshed(final(self).goals@, old(self).list()),
            final(self).config == old(self).config,
            final(self).screen == old(self).screen,
            final(self).last_success_goal == old(self).last_success_goal,
    {
        self.goals = sort_goals(goals, now, offset);
        self.refresh_filtered();
    }
}

} // verus!
