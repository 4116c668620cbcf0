//! The game catalog consumed during launches.
//!
//! The relational store behind the catalog is an external collaborator;
//! this module holds the catalog rows as plain values and gives the
//! operations the frontend drives — count, create, mark-played,
//! mark-favorite and paged ordered listing — exact contracts.  Times
//! are Unix seconds; the wall clock itself is read through the one
//! trusted call at the bottom.

use vstd::prelude::*;

verus! {

/// The orders a catalog listing supports, cycled through by the toolbar
/// in this sequence.
#[derive(Clone, Copy, Debug, PartialEq, Eq, Structural)]
pub enum GameOrder {
    NameAsc,
    NameDesc,
    CoreAsc,
    LastAdded,
    LastPlayed,
    Favorite,
}

/// The order after `o` in the cycle.
pub open spec fn spec_next_order(o: GameOrder) -> GameOrder {
    match o {
        GameOrder::NameAsc => GameOrder::NameDesc,
        GameOrder::NameDesc => GameOrder::CoreAsc,
        GameOrder::CoreAsc => GameOrder::LastAdded,
        GameOrder::LastAdded => GameOrder::LastPlayed,
        GameOrder::LastPlayed => GameOrder::Favorite,
        GameOrder::Favorite => GameOrder::NameAsc,
    }
}

/// The order before `o` in the cycle.
pub open spec fn spec_previous_order(o: GameOrder) -> GameOrder {
    match o {
        GameOrder::NameAsc => GameOrder::Favorite,
        GameOrder::NameDesc => GameOrder::NameAsc,
        GameOrder::CoreAsc => GameOrder::NameDesc,
        GameOrder::LastAdded => GameOrder::CoreAsc,
        GameOrder::LastPlayed => GameOrder::LastAdded,
        GameOrder::Favorite => GameOrder::LastPlayed,
    }
}

impl GameOrder {
    /// The next order in the cycle, wrapping at the end.
    pub fn next(self) -> (r: GameOrder)
        ensures
            r == spec_next_order(self),
    {
        match self {
            GameOrder::NameAsc => GameOrder::NameDesc,
            GameOrder::NameDesc => GameOrder::CoreAsc,
            GameOrder::CoreAsc => GameOrder::LastAdded,
            GameOrder::LastAdded => GameOrder::LastPlayed,
            GameOrder::LastPlayed => GameOrder::Favorite,
            GameOrder::Favorite => GameOrder::NameAsc,
        }
    }

    /// The previous order in the cycle, wrapping at the start.
    pub fn previous(self) -> (r: GameOrder)
        ensures
            r == spec_previous_order(self),
    {
        match self {
            GameOrder::NameAsc => GameOrder::Favorite,
            GameOrder::NameDesc => GameOrder::NameAsc,
            GameOrder::CoreAsc => GameOrder::NameDesc,
            GameOrder::LastAdded => GameOrder::CoreAsc,
            GameOrder::LastPlayed => GameOrder::LastAdded,
            GameOrder::Favorite => GameOrder::LastPlayed,
        }
    }
}

impl Default for GameOrder {
    /// Listings default to most-recently-played first.
    fn default() -> (r: GameOrder)
        ensures
            r == GameOrder::LastPlayed,
    {
        GameOrder::LastPlayed
    }
}

/// Law: stepping the order cycle forward and back returns every order
/// to itself, and so does back then forward.
pub proof fn lemma_order_cycle_round_trip(o: GameOrder)
    ensures
        spec_previous_order(spec_next_order(o)) == o,
        spec_next_order(spec_previous_order(o)) == o,
{
}

/// One catalog row: a game's identity, its grouping key (the core it
/// runs on), the path of its ROM if the core loads one, and the
/// play/favorite bookkeeping.  Times are Unix seconds.
pub struct Game {
    pub id: i32,
    pub name: String,
    pub slug: String,
    pub core_id: i32,
    pub path: Option<String>,
    pub description: String,
    pub last_played: Option<i64>,
    pub added_at: i64,
    pub favorite: bool,
}

/// The first catalog index at or after `i` holding the row with this
/// id, if any.
pub open spec fn spec_find_from(games: Seq<Game>, id: i32, i: int) -> Option<int>
    decreases games.len() - i,
{
    if i < 0 || i >= games.len() {
        None
    } else if games[i].id == id {
        Some(i)
    } else {
        spec_find_from(games, id, i + 1)
    }
}

/// The first catalog index holding the row with this id, if any.
pub open spec fn spec_find(games: Seq<Game>, id: i32) -> Option<int> {
    spec_find_from(games, id, 0)
}

/// The in-memory game catalog: rows in insertion order, ids assigned
/// from a strictly increasing counter, so every id names at most one
/// row.
pub struct Catalog {
    games: Vec<Game>,
    next_id: i32,
}

impl Catalog {
    pub closed spec fn spec_games(self) -> Seq<Game> {
        self.games@
    }

    pub closed spec fn spec_next_id(self) -> i32 {
        self.next_id
    }

    /// Ids are strictly increasing in insertion order and below the
    /// counter, so they are unique.
    pub closed spec fn wf(self) -> bool {
        &&& forall|i: int, j: int|
            0 <= i < j < self.games@.len() ==> self.games@[i].id < self.games@[j].id
        &&& forall|i: int| 0 <= i < self.games@.len() ==> self.games@[i].id < self.next_id
    }

    /// An empty catalog; ids start at 1 as the store assigns them.
    pub fn new() -> (r: Catalog)
        ensures
            r.wf(),
            r.spec_games() == Seq::<Game>::empty(),
            r.spec_next_id() == 1,
    {
        let r = Catalog { games: Vec::new(), next_id: 1 };
        proof {
            assert(r.spec_games() =~= Seq::<Game>::empty());
        }
        r
    }
}

impl Game {
    /// The number of rows in the catalog.
    pub fn count(catalog: &Catalog) -> (r: i64)
        requires
            catalog.spec_games().len() <= i64::MAX,
        ensures
            r == catalog.spec_games().len(),
    {
        catalog.games.len() as i64
    }

    /// Inserts a new game added at the given time: fresh id, not yet
    /// played, not a favorite.  Returns the stored row.
    pub fn create_at(
        catalog: &mut Catalog,
        name: String,
        slug: String,
        core_id: i32,
        path: String,
        description: String,
        added_at: i64,
    ) -> (r: Game)
        requires
            old(catalog).wf(),
            old(catalog).spec_next_id() < i32::MAX,
        ensures
            final(catalog).wf(),
            final(catalog).spec_games() == old(catalog).spec_games().push(r),
            final(catalog).spec_next_id() == old(catalog).spec_next_id() + 1,
            r.id == old(catalog).spec_next_id(),
            r.name == name,
            r.slug == slug,
            r.core_id == core_id,
            r.path == Some(path),
            r.description == description,
            r.last_played is None,
            r.added_at == added_at,
            !r.favorite,
    {
        let id = catalog.next_id;
        let row = Game {
            id,
            name,
            slug,
            core_id,
            path: Some(path),
            description,
            last_played: None,
            added_at,
            favorite: false,
        };
        let copy = Game {
            id: row.id,
            name: row.name.clone(),
            slug: row.slug.clone(),
            core_id: row.core_id,
            path: match &row.path {
                Some(p) => Some(p.clone()),
                None => None,
            },
            description: row.description.clone(),
            last_played: row.last_played,
            added_at: row.added_at,
            favorite: row.favorite,
        };
        proof {
            assert(copy == row);
        }
        catalog.games.push(row);
        catalog.next_id = catalog.next_id + 1;
        copy
    }

    /// Inserts a new game stamped with the current wall-clock time.
    /// Everything but the added-at time is as `create_at` states it.
    pub fn create(
        catalog: &mut Catalog,
        name: String,
        slug: String,
        core_id: i32,
        path: String,
        description: String,
    ) -> (r: Game)
        requires
            old(catalog).wf(),
            old(catalog).spec_next_id() < i32::MAX,
        ensures
            final(catalog).wf(),
            final(catalog).spec_games() == old(catalog).spec_games().push(r),
            final(catalog).spec_next_id() == old(catalog).spec_next_id() + 1,
            r.id == old(catalog).spec_next_id(),
            r.name == name,
            r.slug == slug,
            r.core_id == core_id,
            r.path == Some(path),
            r.description == description,
            r.last_played is None,
            !r.favorite,
    {
        let added_at = now_timestamp();
        Game::create_at(catalog, name, slug, core_id, path, description, added_at)
    }

    /// Marks this game as played at the given time, in the catalog row
    /// with this game's id (when it still exists) and on this value.
    pub fn play_at(&mut self, catalog: &mut Catalog, at: i64)
        requires
            old(catalog).wf(),
        ensures
            final(catalog).wf(),
            *final(self) == (Game { last_played: Some(at), ..*old(self) }),
            final(catalog).spec_next_id() == old(catalog).spec_next_id(),
            final(catalog).spec_games() == match spec_find(
                old(catalog).spec_games(),
                old(self).id,
            ) {
                Some(j) => old(catalog).spec_games().update(
                    j,
                    Game { last_played: Some(at), ..old(catalog).spec_games()[j] },
                ),
                None => old(catalog).spec_games(),
            },
    {
        proof {
            lemma_find_properties(catalog.games@, self.id, 0);
        }
        let found = find_index(&catalog.games, self.id);
        match found {
            Some(j) => {
                catalog.games[j].last_played = Some(at);
                proof {
                    assert(forall|k: int|
                        0 <= k < catalog.games@.len() ==> catalog.games@[k].id == old(
                            catalog,
                        ).spec_games()[k].id);
                }
            },
            None => {},
        }
        self.last_played = Some(at);
    }

    /// Marks this game as played now.
    pub fn play(&mut self, catalog: &mut Catalog)
        requires
            old(catalog).wf(),
        ensures
            final(catalog).wf(),
            final(self).last_played is Some,
            *final(self) == (Game { last_played: final(self).last_played, ..*old(self) }),
            final(catalog).spec_next_id() == old(catalog).spec_next_id(),
            final(catalog).spec_games() == match spec_find(
                old(catalog).spec_games(),
                old(self).id,
            ) {
                Some(j) => old(catalog).spec_games().update(
                    j,
                    Game {
                        last_played: final(self).last_played,
                        ..old(catalog).spec_games()[j]
                    },
                ),
                None => old(catalog).spec_games(),
            },
    {
        let at = now_timestamp();
        self.play_at(catalog, at);
    }

    /// Marks this game as a favorite, in the catalog row with this
    /// game's id (when it still exists) and on this value.
    pub fn favorite(&mut self, catalog: &mut Catalog)
        requires
            old(catalog).wf(),
        ensures
            final(catalog).wf(),
            *final(self) == (Game { favorite: true, ..*old(self) }),
            final(catalog).spec_next_id() == old(catalog).spec_next_id(),
            final(catalog).spec_games() == match spec_find(
                old(catalog).spec_games(),
                old(self).id,
            ) {
                Some(j) => old(catalog).spec_games().update(
                    j,
                    Game { favorite: true, ..old(catalog).spec_games()[j] },
                ),
                None => old(catalog).spec_games(),
            },
    {
        proof {
            lemma_find_properties(catalog.games@, self.id, 0);
        }
        let found = find_index(&catalog.games, self.id);
        match found {
            Some(j) => {
                catalog.games[j].favorite = true;
                proof {
                    assert(forall|k: int|
                        0 <= k < catalog.games@.len() ==> catalog.games@[k].id == old(
                            catalog,
                        ).spec_games()[k].id);
                }
            },
            None => {},
        }
        self.favorite = true;
    }

    /// Removes this game from the favorites, in the catalog row with
    /// this game's id (when it still exists) and on this value.
    pub fn unfavorite(&mut self, catalog: &mut Catalog)
        requires
            old(catalog).wf(),
        ensures
            final(catalog).wf(),
            *final(self) == (Game { favorite: false, ..*old(self) }),
            final(catalog).spec_next_id() == old(catalog).spec_next_id(),
            final(catalog).spec_games() == match spec_find(
                old(catalog).spec_games(),
                old(self).id,
            ) {
                Some(j) => old(catalog).spec_games().update(
                    j,
                    Game { favorite: false, ..old(catalog).spec_games()[j] },
                ),
                None => old(catalog).spec_games(),
            },
    {
        proof {
            lemma_find_properties(catalog.games@, self.id, 0);
        }
        let found = find_index(&catalog.games, self.id);
        match found {
            Some(j) => {
                catalog.games[j].favorite = false;
                proof {
                    assert(forall|k: int|
                        0 <= k < catalog.games@.len() ==> catalog.games@[k].id == old(
                            catalog,
                        ).spec_games()[k].id);
                }
            },
            None => {},
        }
        self.favorite = false;
    }

    /// One page of the catalog listing: `limit` rows of page `page`,
    /// under the requested order, ties between equal keys resolved by
    /// catalog position.  The favorites order lists only favorites.
    pub fn list(catalog: &Catalog, page: i64, limit: i64, order_by: GameOrder) -> (r: Vec<Game>)
        requires
            page >= 0,
            limit >= 0,
            page * limit + limit <= usize::MAX,
        ensures
            r@ == spec_listed(catalog.spec_games(), order_by, page as int, limit as int),
    {
        let games = &catalog.games;
        let ghost gseq = catalog.spec_games();
        let ghost leq = spec_idx_leq(gseq, order_by);
        proof {
            lemma_idx_le_total_ordering(gseq, order_by);
            assert(spec_indices_int(Seq::empty()) =~= Seq::<int>::empty());
        }
        let mut selected: Vec<usize> = Vec::new();
        let mut i: usize = 0;
        while i < games.len()
            invariant
                games@ == gseq,
                i <= gseq.len(),
                forall|t: int| 0 <= t < selected@.len() ==> selected@[t] < gseq.len(),
                spec_indices_int(selected@) + spec_filtered_indices_from(gseq, order_by, i as int)
                    == spec_filtered_indices(gseq, order_by),
            decreases gseq.len() - i,
        {
            let ghost pre = selected@;
            if listed_filter(order_by, &games[i]) {
                selected.push(i);
                proof {
                    assert(spec_indices_int(selected@) =~= spec_indices_int(pre) + seq![i as int]);
                    assert(spec_indices_int(pre) + (seq![i as int] + spec_filtered_indices_from(
                        gseq,
                        order_by,
                        i + 1,
                    )) =~= (spec_indices_int(pre) + seq![i as int]) + spec_filtered_indices_from(
                        gseq,
                        order_by,
                        i + 1,
                    ));
                }
            }
            i = i + 1;
        }
        proof {
            assert(spec_filtered_indices_from(gseq, order_by, i as int) =~= Seq::<int>::empty());
            assert(spec_indices_int(selected@) + Seq::<int>::empty() =~= spec_indices_int(
                selected@,
            ));
        }
        let mut ordered: Vec<usize> = Vec::new();
        proof {
            assert(spec_indices_int(ordered@) =~= Seq::<int>::empty());
            assert(spec_indices_int(selected@.take(0)) =~= Seq::<int>::empty());
        }
        let mut k: usize = 0;
        while k < selected.len()
            invariant
                games@ == gseq,
                leq == spec_idx_leq(gseq, order_by),
                vstd::relations::total_ordering(leq),
                k <= selected@.len(),
                forall|t: int| 0 <= t < selected@.len() ==> selected@[t] < gseq.len(),
                forall|t: int| 0 <= t < ordered@.len() ==> ordered@[t] < gseq.len(),
                vstd::relations::sorted_by(spec_indices_int(ordered@), leq),
                spec_indices_int(ordered@).to_multiset() == spec_indices_int(
                    selected@.take(k as int),
                ).to_multiset(),
            decreases selected@.len() - k,
        {
            broadcast use vstd::seq_lib::group_to_multiset_ensures;

            let x = selected[k];
            let mut p: usize = 0;
            while p < ordered.len() && idx_le(games, order_by, ordered[p], x)
                invariant
                    games@ == gseq,
                    leq == spec_idx_leq(gseq, order_by),
                    x < gseq.len(),
                    p <= ordered@.len(),
                    forall|t: int| 0 <= t < ordered@.len() ==> ordered@[t] < gseq.len(),
                    forall|q: int|
                        0 <= q < p ==> #[trigger] leq(spec_indices_int(ordered@)[q], x as int),
                decreases ordered@.len() - p,
            {
                p = p + 1;
            }
            let ghost os = spec_indices_int(ordered@);
            let ghost xi = x as int;
            proof {
                if p < ordered@.len() {
                    assert(!leq(os[p as int], xi));
                    assert(leq(xi, os[p as int]));
                }
            }
            ordered.insert(p, x);
            proof {
                let ns = spec_indices_int(ordered@);
                assert(ns =~= os.insert(p as int, xi));
                assert(ns =~= os.take(p as int).push(xi) + os.skip(p as int));
                assert forall|a: int, b: int| 0 <= a < b < ns.len() implies #[trigger] leq(
                    ns[a],
                    ns[b],
                ) by {
                    if a < p && b == p {
                        assert(leq(os[a], xi));
                    } else if a == p && b > p {
                        assert(leq(xi, os[p as int]));
                        assert(p < os.len() ==> leq(os[p as int], os[b - 1]) || p as int == b - 1);
                    }
                }
                assert(os =~= os.take(p as int) + os.skip(p as int));
                vstd::seq_lib::lemma_multiset_commutative(os.take(p as int), os.skip(p as int));
                vstd::seq_lib::lemma_multiset_commutative(
                    os.take(p as int).push(xi),
                    os.skip(p as int),
                );
                assert(os.take(p as int).push(xi).to_multiset() =~= os.take(
                    p as int,
                ).to_multiset().insert(xi));
                assert(ns.to_multiset() =~= os.to_multiset().insert(xi));
                assert(spec_indices_int(selected@.take(k as int + 1)) =~= spec_indices_int(
                    selected@.take(k as int),
                ).push(xi));
                assert(spec_indices_int(selected@.take(k as int + 1)).to_multiset()
                    =~= spec_indices_int(selected@.take(k as int)).to_multiset().insert(xi));
            }
            k = k + 1;
        }
        proof {
            assert(selected@.take(selected@.len() as int) =~= selected@);
            let fi = spec_filtered_indices(gseq, order_by);
            fi.lemma_sort_by_ensures(leq);
            vstd::seq_lib::lemma_sorted_unique(spec_indices_int(ordered@), fi.sort_by(leq), leq);
            assert(spec_indices_int(ordered@) == fi.sort_by(leq));
        }
        let n = ordered.len();
        let pl: usize = if limit == 0 {
            0
        } else {
            proof {
                assert(page <= page * limit && page * limit >= 0) by (nonlinear_arith)
                    requires
                        page >= 0,
                        limit >= 1,
                ;
            }
            (page as usize) * (limit as usize)
        };
        proof {
            assert(pl == page * limit);
        }
        let off: usize = if pl < n {
            pl
        } else {
            n
        };
        let end: usize = if pl + (limit as usize) < n {
            pl + (limit as usize)
        } else {
            n
        };
        let mut result: Vec<Game> = Vec::new();
        let mut m: usize = off;
        while m < end
            invariant
                games@ == gseq,
                off <= m <= end <= ordered@.len(),
                forall|t: int| 0 <= t < ordered@.len() ==> ordered@[t] < gseq.len(),
                result@.len() == m - off,
                forall|t: int|
                    0 <= t < result@.len() ==> result@[t] == gseq[spec_indices_int(ordered@)[off
                        + t]],
            decreases end - m,
        {
            let row = clone_game(&games[ordered[m]]);
            result.push(row);
            m = m + 1;
        }
        proof {
            let idxs = spec_filtered_indices(gseq, order_by).sort_by(leq);
            let all = Seq::new(idxs.len(), |t: int| gseq[idxs[t]]);
            assert(result@ =~= all.subrange(
                if page * limit < all.len() {
                    page * limit
                } else {
                    all.len() as int
                },
                if page * limit + limit < all.len() {
                    page * limit + limit
                } else {
                    all.len() as int
                },
            ));
        }
        result
    }
}

/// Law of the search: a found index is in range, holds the id, and
/// nothing before it does; a miss means no row holds the id.
pub proof fn lemma_find_properties(games: Seq<Game>, id: i32, i: int)
    requires
        0 <= i <= games.len(),
    ensures
        match spec_find_from(games, id, i) {
            Some(j) => {
                &&& i <= j < games.len()
                &&& games[j].id == id
                &&& forall|k: int| i <= k < j ==> games[k].id != id
            },
            None => forall|k: int| i <= k < games.len() ==> games[k].id != id,
        },
    decreases games.len() - i,
{
    if i < games.len() && games[i].id != id {
        lemma_find_properties(games, id, i + 1);
    }
}

/// The first row index holding `id`, searched front to back.
fn find_index(games: &Vec<Game>, id: i32) -> (r: Option<usize>)
    ensures
        match r {
            Some(j) => spec_find(games@, id) == Some(j as int),
            None => spec_find(games@, id) is None,
        },
{
    let mut i: usize = 0;
    while i < games.len()
        invariant
            i <= games@.len(),
            spec_find(games@, id) == spec_find_from(games@, id, i as int),
        decreases games@.len() - i,
    {
        proof {
            assert(spec_find_from(games@, id, i as int) == if games@[i as int].id == id {
                Some(i as int)
            } else {
                spec_find_from(games@, id, i + 1)
            });
        }
        if games[i].id == id {
            return Some(i);
        }
        i = i + 1;
    }
    proof {
        assert(spec_find_from(games@, id, i as int) is None);
    }
    None
}

/// Whether name `a` sorts no later than name `b`, comparing scalar
/// values position by position from `i` on; a name that runs out first
/// sorts first.
pub open spec fn spec_lex_le_from(a: Seq<char>, b: Seq<char>, i: int) -> bool
    decreases a.len() - i,
{
    if i >= a.len() {
        true
    } else if i >= b.len() {
        false
    } else if a[i] != b[i] {
        (a[i] as int) < (b[i] as int)
    } else {
        spec_lex_le_from(a, b, i + 1)
    }
}

/// Whether name `a` sorts no later than name `b`.
pub open spec fn spec_name_le(a: Seq<char>, b: Seq<char>) -> bool {
    spec_lex_le_from(a, b, 0)
}

proof fn lemma_lex_le_refl(a: Seq<char>, i: int)
    ensures
        spec_lex_le_from(a, a, i),
    decreases a.len() - i,
{
    if i < a.len() {
        lemma_lex_le_refl(a, i + 1);
    }
}

proof fn lemma_lex_le_connected(a: Seq<char>, b: Seq<char>, i: int)
    ensures
        spec_lex_le_from(a, b, i) || spec_lex_le_from(b, a, i),
    decreases a.len() - i,
{
    if i < a.len() && i < b.len() && a[i] == b[i] {
        lemma_lex_le_connected(a, b, i + 1);
    }
}

proof fn lemma_lex_le_trans(a: Seq<char>, b: Seq<char>, c: Seq<char>, i: int)
    requires
        spec_lex_le_from(a, b, i),
        spec_lex_le_from(b, c, i),
    ensures
        spec_lex_le_from(a, c, i),
    decreases a.len() - i,
{
    if i < a.len() && i < b.len() && i < c.len() && a[i] == b[i] && b[i] == c[i] {
        lemma_lex_le_trans(a, b, c, i + 1);
    }
}

/// Whether name `a` sorts no later than name `b`, by scalar values.
fn str_le(a: &String, b: &String) -> (r: bool)
    ensures
        r == spec_name_le(a@, b@),
{
    let a_str = a.as_str();
    let b_str = b.as_str();
    let a_len = a_str.unicode_len();
    let b_len = b_str.unicode_len();
    let mut i: usize = 0;
    while i < a_len && i < b_len
        invariant
            a_str@ == a@,
            b_str@ == b@,
            a_len == a@.len(),
            b_len == b@.len(),
            i <= a_len,
            i <= b_len,
            spec_name_le(a@, b@) == spec_lex_le_from(a@, b@, i as int),
        decreases a_len - i,
    {
        let ca = a_str.get_char(i);
        let cb = b_str.get_char(i);
        if ca != cb {
            return (ca as u32) < (cb as u32);
        }
        i = i + 1;
    }
    i >= a_len
}

/// The recency key a listing orders by: an unplayed game sorts after
/// every played one.
pub open spec fn spec_played_ts(g: Game) -> int {
    match g.last_played {
        Some(t) => t as int,
        None => i64::MIN - 1,
    }
}

/// Whether row `a` sorts no later than row `b` under a listing order:
/// names ascending or descending, grouping key ascending, or recency
/// descending for the added/played/favorites orders.
pub open spec fn spec_key_le(order: GameOrder, a: Game, b: Game) -> bool {
    match order {
        GameOrder::NameAsc => spec_name_le(a.name@, b.name@),
        GameOrder::NameDesc => spec_name_le(b.name@, a.name@),
        GameOrder::CoreAsc => a.core_id <= b.core_id,
        GameOrder::LastAdded => a.added_at >= b.added_at,
        GameOrder::LastPlayed => spec_played_ts(a) >= spec_played_ts(b),
        GameOrder::Favorite => spec_played_ts(a) >= spec_played_ts(b),
    }
}

proof fn lemma_key_le_refl(order: GameOrder, a: Game)
    ensures
        spec_key_le(order, a, a),
{
    match order {
        GameOrder::NameAsc => lemma_lex_le_refl(a.name@, 0),
        GameOrder::NameDesc => lemma_lex_le_refl(a.name@, 0),
        _ => (),
    }
}

proof fn lemma_key_le_connected(order: GameOrder, a: Game, b: Game)
    ensures
        spec_key_le(order, a, b) || spec_key_le(order, b, a),
{
    match order {
        GameOrder::NameAsc => lemma_lex_le_connected(a.name@, b.name@, 0),
        GameOrder::NameDesc => lemma_lex_le_connected(b.name@, a.name@, 0),
        _ => (),
    }
}

proof fn lemma_key_le_trans(order: GameOrder, a: Game, b: Game, c: Game)
    requires
        spec_key_le(order, a, b),
        spec_key_le(order, b, c),
    ensures
        spec_key_le(order, a, c),
{
    match order {
        GameOrder::NameAsc => lemma_lex_le_trans(a.name@, b.name@, c.name@, 0),
        GameOrder::NameDesc => lemma_lex_le_trans(c.name@, b.name@, a.name@, 0),
        _ => (),
    }
}

/// Whether, among the rows of `games`, the row at `i` sorts no later
/// than the row at `j`: by the listing key, with the row position
/// breaking ties, so the relation orders positions totally.
pub open spec fn spec_idx_le(games: Seq<Game>, order: GameOrder, i: int, j: int) -> bool {
    if spec_key_le(order, games[i], games[j]) && spec_key_le(order, games[j], games[i]) {
        i <= j
    } else {
        spec_key_le(order, games[i], games[j])
    }
}

/// The position comparator of one listing, as a relation value.
pub open spec fn spec_idx_leq(games: Seq<Game>, order: GameOrder) -> spec_fn(int, int) -> bool {
    |i: int, j: int| spec_idx_le(games, order, i, j)
}

/// Law: the position comparator of a listing is a total ordering, so
/// the sorted listing is unique.
pub proof fn lemma_idx_le_total_ordering(games: Seq<Game>, order: GameOrder)
    ensures
        vstd::relations::total_ordering(spec_idx_leq(games, order)),
{
    let leq = spec_idx_leq(games, order);
    assert forall|i: int| #[trigger] leq(i, i) by {
        lemma_key_le_refl(order, games[i]);
    }
    assert forall|i: int, j: int| #[trigger] leq(i, j) && #[trigger] leq(j, i) implies i == j by {
        lemma_key_le_connected(order, games[i], games[j]);
    }
    assert forall|i: int, j: int, k: int| #[trigger] leq(i, j) && #[trigger] leq(j, k) implies leq(
        i,
        k,
    ) by {
        lemma_key_le_trans(order, games[i], games[j], games[k]);
        if spec_key_le(order, games[k], games[i]) {
            lemma_key_le_trans(order, games[j], games[k], games[i]);
            lemma_key_le_trans(order, games[k], games[i], games[j]);
        }
    }
    assert forall|i: int, j: int| !(#[trigger] leq(i, j)) implies leq(j, i) by {
        lemma_key_le_connected(order, games[i], games[j]);
    }
}

/// Whether row `a` sorts no later than row `b` under the listing order.
fn game_le(order: GameOrder, a: &Game, b: &Game) -> (r: bool)
    ensures
        r == spec_key_le(order, *a, *b),
{
    match order {
        GameOrder::NameAsc => str_le(&a.name, &b.name),
        GameOrder::NameDesc => str_le(&b.name, &a.name),
        GameOrder::CoreAsc => a.core_id <= b.core_id,
        GameOrder::LastAdded => a.added_at >= b.added_at,
        GameOrder::LastPlayed => played_le(b, a),
        GameOrder::Favorite => played_le(b, a),
    }
}

/// Whether `a` was played no later than `b`; never played counts as
/// earliest.
fn played_le(a: &Game, b: &Game) -> (r: bool)
    ensures
        r == (spec_played_ts(*a) <= spec_played_ts(*b)),
{
    match (&a.last_played, &b.last_played) {
        (Some(x), Some(y)) => *x <= *y,
        (Some(_), None) => false,
        (None, _) => true,
    }
}

/// Whether the row at `i` sorts no later than the row at `j`.
fn idx_le(games: &Vec<Game>, order: GameOrder, i: usize, j: usize) -> (r: bool)
    requires
        i < games@.len(),
        j < games@.len(),
    ensures
        r == spec_idx_le(games@, order, i as int, j as int),
{
    let a_le_b = game_le(order, &games[i], &games[j]);
    let b_le_a = game_le(order, &games[j], &games[i]);
    if a_le_b && b_le_a {
        i <= j
    } else {
        a_le_b
    }
}

/// Whether a listing under this order shows the row at all: the
/// favorites listing shows only favorites, every other order shows the
/// whole catalog.
pub open spec fn spec_listed_filter(order: GameOrder, g: Game) -> bool {
    match order {
        GameOrder::Favorite => g.favorite,
        _ => true,
    }
}

/// The catalog positions at or after `i` that the listing shows, in
/// catalog order.
pub open spec fn spec_filtered_indices_from(games: Seq<Game>, order: GameOrder, i: int) -> Seq<int>
    decreases games.len() - i,
{
    if i < 0 || i >= games.len() {
        Seq::empty()
    } else if spec_listed_filter(order, games[i]) {
        seq![i] + spec_filtered_indices_from(games, order, i + 1)
    } else {
        spec_filtered_indices_from(games, order, i + 1)
    }
}

/// The catalog positions the listing shows, in catalog order.
pub open spec fn spec_filtered_indices(games: Seq<Game>, order: GameOrder) -> Seq<int> {
    spec_filtered_indices_from(games, order, 0)
}

/// A vector of catalog positions as the mathematical sequence it
/// denotes.
pub open spec fn spec_indices_int(s: Seq<usize>) -> Seq<int> {
    Seq::new(s.len(), |k: int| s[k] as int)
}

/// One page of the listing: the shown rows, ordered by the listing
/// comparator (row position breaking ties), sliced to the `limit` rows
/// of page `page`.
pub open spec fn spec_listed(games: Seq<Game>, order: GameOrder, page: int, limit: int) -> Seq<
    Game,
> {
    let idxs = spec_filtered_indices(games, order).sort_by(spec_idx_leq(games, order));
    let all = Seq::new(idxs.len(), |k: int| games[idxs[k]]);
    let off = if page * limit < all.len() {
        page * limit
    } else {
        all.len() as int
    };
    let end = if page * limit + limit < all.len() {
        page * limit + limit
    } else {
        all.len() as int
    };
    all.subrange(off, end)
}

/// Whether the listing shows this row.
fn listed_filter(order: GameOrder, g: &Game) -> (r: bool)
    ensures
        r == spec_listed_filter(order, *g),
{
    match order {
        GameOrder::Favorite => g.favorite,
        _ => true,
    }
}

/// An owned copy of one catalog row.
fn clone_game(g: &Game) -> (r: Game)
    ensures
        r == *g,
{
    Game {
        id: g.id,
        name: g.name.clone(),
        slug: g.slug.clone(),
        core_id: g.core_id,
        path: match &g.path {
            Some(p) => Some(p.clone()),
            None => None,
        },
        description: g.description.clone(),
        last_played: g.last_played,
        added_at: g.added_at,
        favorite: g.favorite,
    }
}

/// Relies on chrono's `Utc::now`: the current wall-clock time as Unix
/// seconds.  The value depends on the clock, so nothing is promised of
/// it; every caller states what holds whatever time comes back.
#[verifier::external_body]
fn now_timestamp() -> i64 {
    chrono::Utc::now().timestamp()
}

} // verus!
