use vstd::prelude::*;

use crate::action::Action;
use crate::select::StatefulList;
use crate::select::next_cursor;
use crate::select::previous_cursor;
use crate::text::pop_char;
use crate::text::push_char;
use crate::terminal::App;
use crate::terminal::Key;
use crate::terminal::Mode;
use crate::terminal::is_search;
use crate::terminal::action_step;

verus! {

/// Candidates farther than this from the query are not shown.
pub const MATCH_THRESHOLD: usize = 5;

pub open spec fn min3(a: nat, b: nat, c: nat) -> nat {
    if a <= b && a <= c { a } else if b <= c { b } else { c }
}

/// The least number of single-character insertions, deletions and
/// substitutions that turn `a` into `b`.
pub open spec fn levenshtein(a: Seq<char>, b: Seq<char>) -> nat
    decreases a.len() + b.len(),
{
    if a.len() == 0 {
        b.len()
    } else if b.len() == 0 {
        a.len()
    } else {
        min3(
            levenshtein(a.drop_last(), b) + 1,
            levenshtein(a, b.drop_last()) + 1,
            levenshtein(a.drop_last(), b.drop_last()) + if a.last() == b.last() { 0nat } else { 1nat },
        )
    }
}

/// Relies on `strsim::levenshtein`: the edit distance between the two strings,
/// counted in characters.
#[verifier::external_body]
fn edit_distance(a: &str, b: &str) -> (r: usize)
    ensures
        r == levenshtein(a@, b@),
{
    strsim::levenshtein(a, b)
}

/// The text of each string.
pub open spec fn views(v: Seq<String>) -> Seq<Seq<char>> {
    v.map_values(|s: String| s@)
}

/// The candidates at distance exactly `d` from the query, in pool order.
pub open spec fn with_distance(query: Seq<char>, pool: Seq<Seq<char>>, d: nat) -> Seq<Seq<char>> {
    pool.filter(|s: Seq<char>| levenshtein(query, s) == d)
}

/// The candidates at a distance below `d`, nearest first, ties in pool order.
pub open spec fn ranked_below(query: Seq<char>, pool: Seq<Seq<char>>, d: nat) -> Seq<Seq<char>>
    decreases d,
{
    if d == 0 {
        Seq::empty()
    } else {
        ranked_below(query, pool, (d - 1) as nat) + with_distance(query, pool, (d - 1) as nat)
    }
}

/// The candidates within the threshold of the query, stably ordered by distance.
pub open spec fn ranked(query: Seq<char>, pool: Seq<Seq<char>>) -> Seq<Seq<char>> {
    ranked_below(query, pool, (MATCH_THRESHOLD + 1) as nat)
}

proof fn lemma_with_distance_step(query: Seq<char>, pool: Seq<Seq<char>>, i: int, d: nat)
    requires
        0 <= i < pool.len(),
    ensures
        with_distance(query, pool.take(i + 1), d) == if levenshtein(query, pool[i]) == d {
            with_distance(query, pool.take(i), d).push(pool[i])
        } else {
            with_distance(query, pool.take(i), d)
        },
{
    reveal(Seq::filter);
    assert(pool.take(i + 1).drop_last() =~= pool.take(i));
    assert(pool.take(i + 1).last() == pool[i]);
}

/// Ranks `pool` against `query`: the candidates within the threshold, nearest
/// first, candidates at equal distance in their pool order.
pub fn rank_matches(query: &str, pool: &Vec<String>) -> (r: Vec<String>)
    ensures
        views(r@) == ranked(query@, views(pool@)),
{
    let ghost q = query@;
    let ghost p = views(pool@);
    let mut dists: Vec<usize> = Vec::new();
    let mut i: usize = 0;
    while i < pool.len()
        invariant
            i <= pool.len(),
            q == query@,
            dists@.len() == i,
            forall|j: int| 0 <= j < i ==> dists@[j] == levenshtein(q, pool@[j]@),
        decreases pool.len() - i,
    {
        let d = edit_distance(query, pool[i].as_str());
        dists.push(d);
        i = i + 1;
    }
    let mut out: Vec<String> = Vec::new();
    let mut d: usize = 0;
    while d <= MATCH_THRESHOLD
        invariant
            d <= MATCH_THRESHOLD + 1,
            q == query@,
            p == views(pool@),
            dists@.len() == pool@.len(),
            p.len() == pool@.len(),
            forall|j: int| 0 <= j < pool@.len() ==> dists@[j] == levenshtein(q, p[j]),
            views(out@) == ranked_below(q, p, d as nat),
        decreases MATCH_THRESHOLD + 1 - d,
    {
        let mut k: usize = 0;
        while k < pool.len()
            invariant
                k <= pool.len(),
                d <= MATCH_THRESHOLD,
                q == query@,
                p == views(pool@),
                dists@.len() == pool@.len(),
                p.len() == pool@.len(),
                forall|j: int| 0 <= j < pool@.len() ==> dists@[j] == levenshtein(q, p[j]),
                views(out@) == ranked_below(q, p, d as nat) + with_distance(q, p.take(k as int), d as nat),
            decreases pool.len() - k,
        {
            proof {
                lemma_with_distance_step(q, p, k as int, d as nat);
            }
            if dists[k] == d {
                let s = pool[k].clone();
                let ghost before = out@;
                out.push(s);
                assert(views(out@) =~= views(before).push(p[k as int]));
            }
            k = k + 1;
        }
        assert(p.take(pool@.len() as int) =~= p);
        d = d + 1;
    }
    out
}

/// The state of a fuzzy search dialog.
pub struct Data {
    input: String,
    output: String,
    title: String,
    possible_matches: Vec<String>,
    stateful_matches: StatefulList<String>,
    result_func: Option<Action>,
}

impl Data {
    /// The query typed so far.
    pub closed spec fn query(&self) -> Seq<char> {
        self.input@
    }

    /// The candidate last taken by a confirmed selection.
    pub closed spec fn output_view(&self) -> Seq<char> {
        self.output@
    }

    /// The action to run once a candidate is confirmed.
    pub closed spec fn pending(&self) -> Option<Action> {
        self.result_func
    }

    pub closed spec fn title_view(&self) -> Seq<char> {
        self.title@
    }

    /// The candidates the dialog was opened with.
    pub closed spec fn pool(&self) -> Seq<Seq<char>> {
        views(self.possible_matches@)
    }

    /// The candidates on show.
    pub closed spec fn shown(&self) -> Seq<Seq<char>> {
        views(self.stateful_matches.items_view())
    }

    pub closed spec fn cursor(&self) -> Option<usize> {
        self.stateful_matches.cursor()
    }

    pub open spec fn wf(&self) -> bool {
        match self.cursor() {
            Some(i) => i < self.shown().len(),
            None => true,
        }
    }

    /// An empty dialog with no candidates and no pending action.
    pub fn new() -> (r: Data)
        ensures
            r.wf(),
            r.query().len() == 0,
            r.title_view().len() == 0,
            r.output_view().len() == 0,
            r.pool().len() == 0,
            r.shown().len() == 0,
            r.cursor() is None,
            r.pending() is None,
    {
        Data {
            input: String::new(),
            output: String::new(),
            title: String::new(),
            possible_matches: Vec::new(),
            stateful_matches: StatefulList::with_items(Vec::new()),
            result_func: None,
        }
    }

    /// Opens the dialog on a new pool: the query is emptied, the pool is
    /// ranked against the empty query with the cursor on the first result,
    /// and `result_func` becomes the pending action.
    pub fn reset(&mut self, title: String, possible_matches: Vec<String>, result_func: Action)
        ensures
            final(self).wf(),
            final(self).query().len() == 0,
            final(self).title_view() == title@,
            final(self).pool() == views(possible_matches@),
            final(self).shown() == ranked(Seq::empty(), views(possible_matches@)),
            final(self).cursor() == (if final(self).shown().len() == 0 { None } else { Some(0usize) }),
            final(self).pending() == Some(result_func),
            final(self).output_view() == old(self).output_view(),
    {
        self.input = String::new();
        self.title = title;
        self.possible_matches = possible_matches;
        self.result_func = Some(result_func);
        self.recalculate_matches();
    }

    /// Ranks the pool against the query anew and puts the cursor on the first
    /// result, if there is one.
    fn recalculate_matches(&mut self)
        ensures
            final(self).wf(),
            final(self).query() == old(self).query(),
            final(self).title_view() == old(self).title_view(),
            final(self).pool() == old(self).pool(),
            final(self).shown() == ranked(old(self).query(), old(self).pool()),
            final(self).cursor() == (if final(self).shown().len() == 0 { None } else { Some(0usize) }),
            final(self).pending() == old(self).pending(),
            final(self).output_view() == old(self).output_view(),
    {
        let ranked = rank_matches(self.input.as_str(), &self.possible_matches);
        self.stateful_matches = StatefulList::with_items(ranked);
        self.stateful_matches.next();
    }

    /// Adds a character to the query and ranks again.
    pub fn push_input(&mut self, c: char)
        ensures
            final(self).wf(),
            final(self).query() == old(self).query().push(c),
            final(self).title_view() == old(self).title_view(),
            final(self).pool() == old(self).pool(),
            final(self).shown() == ranked(final(self).query(), final(self).pool()),
            final(self).cursor() == (if final(self).shown().len() == 0 { None } else { Some(0usize) }),
            final(self).pending() == old(self).pending(),
            final(self).output_view() == old(self).output_view(),
    {
        push_char(&mut self.input, c);
        self.recalculate_matches();
    }

    /// Removes the last character of the query, if any, and ranks again.
    pub fn pop_input(&mut self)
        ensures
            final(self).wf(),
            final(self).query() == (if old(self).query().len() == 0 {
                old(self).query()
            } else {
                old(self).query().drop_last()
            }),
            final(self).title_view() == old(self).title_view(),
            final(self).pool() == old(self).pool(),
            final(self).shown() == ranked(final(self).query(), final(self).pool()),
            final(self).cursor() == (if final(self).shown().len() == 0 { None } else { Some(0usize) }),
            final(self).pending() == old(self).pending(),
            final(self).output_view() == old(self).output_view(),
    {
        let _ = pop_char(&mut self.input);
        self.recalculate_matches();
    }

    /// Moves the cursor to the next result, wrapping around; the ranking stays.
    pub fn next_match(&mut self)
        requires
            old(self).wf(),
        ensures
            final(self).wf(),
            final(self).query() == old(self).query(),
            final(self).title_view() == old(self).title_view(),
            final(self).pool() == old(self).pool(),
            final(self).shown() == old(self).shown(),
            final(self).cursor() == next_cursor(old(self).cursor(), old(self).shown().len()),
            final(self).pending() == old(self).pending(),
            final(self).output_view() == old(self).output_view(),
    {
        self.stateful_matches.next();
    }

    /// Moves the cursor to the previous result, wrapping around; the ranking stays.
    pub fn previous_match(&mut self)
        requires
            old(self).wf(),
        ensures
            final(self).wf(),
            final(self).query() == old(self).query(),
            final(self).title_view() == old(self).title_view(),
            final(self).pool() == old(self).pool(),
            final(self).shown() == old(self).shown(),
            final(self).cursor() == previous_cursor(old(self).cursor(), old(self).shown().len()),
            final(self).pending() == old(self).pending(),
            final(self).output_view() == old(self).output_view(),
    {
        self.stateful_matches.previous();
    }

    /// Takes the result under the cursor as the output. Returns false, and
    /// changes nothing, when no result is on show or there is no cursor.
    pub fn check_finding(&mut self) -> (r: bool)
        requires
            old(self).wf(),
        ensures
            final(self).wf(),
            r == (old(self).shown().len() > 0 && old(self).cursor() is Some),
            r ==> final(self).output_view() == old(self).shown()[old(self).cursor().unwrap() as int],
            !r ==> *final(self) == *old(self),
            final(self).query() == old(self).query(),
            final(self).title_view() == old(self).title_view(),
            final(self).pool() == old(self).pool(),
            final(self).shown() == old(self).shown(),
            final(self).cursor() == old(self).cursor(),
            final(self).pending() == old(self).pending(),
    {
        if self.stateful_matches.len() == 0 {
            return false;
        }
        match self.stateful_matches.selected() {
            None => false,
            Some(i) => {
                self.output = self.stateful_matches.items()[i].clone();
                true
            },
        }
    }

    pub fn output(&self) -> (r: &String)
        ensures
            r@ == self.output_view(),
    {
        &self.output
    }

    pub fn result_func(&self) -> (r: Option<Action>)
        ensures
            r == self.pending(),
    {
        self.result_func
    }

    pub fn input(&self) -> (r: &String)
        ensures
            r@ == self.query(),
    {
        &self.input
    }

    pub fn title(&self) -> (r: &String)
        ensures
            r@ == self.title_view(),
    {
        &self.title
    }

    /// The candidates on show, in ranked order.
    pub fn matches(&self) -> (r: &Vec<String>)
        ensures
            views(r@) == self.shown(),
    {
        self.stateful_matches.items()
    }

    pub fn selected(&self) -> (r: Option<usize>)
        ensures
            r == self.cursor(),
    {
        self.stateful_matches.selected()
    }
}

/// What a key does in a fuzzy search mode.
pub open spec fn search_step(o: App, n: App, key: Key) -> bool {
    &&& (key == Key::Esc ==> n == (App { mode: Mode::Main, ..o }))
    &&& (key matches Key::Char(c) ==> {
        &&& n.finder_data.query() == o.finder_data.query().push(c)
        &&& n.finder_data.shown() == ranked(n.finder_data.query(), o.finder_data.pool())
        &&& n.finder_data.pool() == o.finder_data.pool()
        &&& n == (App { finder_data: n.finder_data, ..o })
    })
    &&& (key == Key::Backspace ==> {
        &&& n.finder_data.shown() == ranked(n.finder_data.query(), o.finder_data.pool())
        &&& n == (App { finder_data: n.finder_data, ..o })
    })
    &&& (key == Key::Tab ==> {
        &&& n.finder_data.cursor() == next_cursor(o.finder_data.cursor(), o.finder_data.shown().len())
        &&& n.finder_data.shown() == o.finder_data.shown()
        &&& n == (App { finder_data: n.finder_data, ..o })
    })
    &&& (key == Key::BackTab ==> {
        &&& n.finder_data.cursor() == previous_cursor(o.finder_data.cursor(), o.finder_data.shown().len())
        &&& n.finder_data.shown() == o.finder_data.shown()
        &&& n == (App { finder_data: n.finder_data, ..o })
    })
    &&& (key == Key::Enter && (o.finder_data.shown().len() == 0 || o.finder_data.cursor() is None)
        ==> n == o)
    &&& (key == Key::Other || key == Key::Left || key == Key::Right ==> n == o)
    &&& (key == Key::Enter && o.finder_data.shown().len() > 0 && o.finder_data.cursor() is Some ==> ({
        let chosen = o.finder_data.shown()[o.finder_data.cursor()->Some_0 as int];
        let taken = App { finder_data: n.finder_data, ..o };
        &&& n.finder_data.output_view() == chosen
        &&& n.finder_data.query() == o.finder_data.query()
        &&& n.finder_data.shown() == o.finder_data.shown()
        &&& n.finder_data.cursor() == o.finder_data.cursor()
        &&& n.finder_data.pending() == o.finder_data.pending()
        &&& match o.finder_data.pending() {
            Some(a) => action_step(taken, n, a),
            None => n == (App { mode: Mode::Main, ..taken }),
        }
    }))
}

/// Handles a key in one of the fuzzy search modes.
pub fn controller(app: &mut App, key: Key)
    requires
        old(app).wf(),
        is_search(old(app).mode),
    ensures
        final(app).wf(),
        search_step(*old(app), *final(app), key),
{
    match key {
        Key::Char(c) => app.finder_data.push_input(c),
        Key::Backspace => app.finder_data.pop_input(),
        Key::Tab => app.finder_data.next_match(),
        Key::BackTab => app.finder_data.previous_match(),
        Key::Enter => {
            if app.finder_data.check_finding() {
                match app.finder_data.result_func() {
                    Some(a) => app.run_action(a),
                    None => app.main_controller(),
                }
            }
        },
        Key::Esc => app.main_controller(),
        _ => {},
    }
}

} // verus!
