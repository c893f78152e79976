use vstd::prelude::*;

use crate::text::{
    lemma_lex_le_reflexive, lemma_lex_le_total, lemma_lex_le_transitive, lex_le, lex_le_str,
    str_eq,
};

verus! {

/// A token that the monitor can follow, as listed in the tokens file.
pub struct TokenInfo {
    pub order: u8,
    pub symbol: String,
    pub full_name: String,
    pub mint_addr: String,
    pub market_addr: String,
    pub sell_addr: String,
    pub buy_addr: String,
}

impl Clone for TokenInfo {
    /// A copy of the token, equal to it field by field.
    fn clone(&self) -> (r: TokenInfo)
        ensures
            r == *self,
    {
        TokenInfo {
            order: self.order,
            symbol: self.symbol.clone(),
            full_name: self.full_name.clone(),
            mint_addr: self.mint_addr.clone(),
            market_addr: self.market_addr.clone(),
            sell_addr: self.sell_addr.clone(),
            buy_addr: self.buy_addr.clone(),
        }
    }
}

/// The tokens file's contents: each token under its identifier, with no
/// identifier twice. Entries keep the order in which they were inserted.
pub struct TokenTable {
    entries: Vec<(String, TokenInfo)>,
}

/// What a token table holds: identifier and token, in insertion order.
pub type TokenEntries = Seq<(Seq<char>, TokenInfo)>;

/// Whether `i` is the first index of an entry with identifier `id`.
pub open spec fn is_first_entry(t: TokenEntries, id: Seq<char>, i: int) -> bool {
    0 <= i < t.len() && t[i].0 == id && forall|j: int| 0 <= j < i ==> t[j].0 != id
}

/// The index of the first entry with identifier `id`, if there is one.
pub open spec fn spec_entry_index(t: TokenEntries, id: Seq<char>) -> Option<int> {
    if exists|i: int| is_first_entry(t, id, i) {
        Some(choose|i: int| is_first_entry(t, id, i))
    } else {
        None
    }
}

/// An entry with identifier `id` makes `spec_entry_index` find one, and the
/// entry it finds has that identifier.
pub proof fn lemma_entry_index_found(t: TokenEntries, id: Seq<char>, k: int)
    requires
        0 <= k < t.len(),
        t[k].0 == id,
    ensures
        spec_entry_index(t, id) is Some,
        spec_entry_index(t, id)->0 <= k,
        t[spec_entry_index(t, id)->0].0 == id,
    decreases k,
{
    if exists|j: int| 0 <= j < k && t[j].0 == id {
        let j = choose|j: int| 0 <= j < k && t[j].0 == id;
        lemma_entry_index_found(t, id, j);
    } else {
        assert(is_first_entry(t, id, k));
    }
}

proof fn lemma_first_entry_unique(t: TokenEntries, id: Seq<char>, i: int, c: int)
    requires
        is_first_entry(t, id, i),
        is_first_entry(t, id, c),
    ensures
        i == c,
{
    if c < i {
        assert(t[c].0 != id);
    } else if i < c {
        assert(t[i].0 != id);
    }
}

/// No identifier occurs twice.
pub open spec fn spec_ids_distinct(t: TokenEntries) -> bool {
    forall|i: int, j: int| 0 <= i < j < t.len() ==> t[i].0 != t[j].0
}

/// The keys by which token lists are sorted.
#[derive(Debug, Clone, Copy, PartialEq, Eq, Structural)]
pub enum SortKey {
    /// The `order` number of the token.
    Order,
    /// The ticker symbol of the token, in `String` order.
    Symbol,
}

/// Whether entry `i` sorts no later than entry `j` by `by`.
pub open spec fn key_le(t: TokenEntries, by: SortKey, i: int, j: int) -> bool {
    match by {
        SortKey::Order => t[i].1.order <= t[j].1.order,
        SortKey::Symbol => lex_le(t[i].1.symbol@, t[j].1.symbol@),
    }
}

/// Whether a stable sort by `by` puts entry `i` before entry `j`: by key, and
/// by position in the table between equal keys.
pub open spec fn ranks_before(t: TokenEntries, by: SortKey, i: int, j: int) -> bool {
    key_le(t, by, i, j) && (!key_le(t, by, j, i) || i < j)
}

/// Whether `p` lists every index of `t` once, in the order in which a stable
/// sort by `by` arranges the entries.
pub open spec fn is_stable_sort(t: TokenEntries, by: SortKey, p: Seq<usize>) -> bool {
    &&& p.len() == t.len()
    &&& forall|k: int| 0 <= k < p.len() ==> #[trigger] p[k] < t.len()
    &&& forall|i: usize| (i as int) < t.len() ==> #[trigger] p.contains(i)
    &&& forall|a: int, b: int| 0 <= a < b < p.len() ==> ranks_before(t, by, #[trigger] p[a] as int, #[trigger] p[b] as int)
}

proof fn lemma_key_le_total(t: TokenEntries, by: SortKey, i: int, j: int)
    ensures
        key_le(t, by, i, j) || key_le(t, by, j, i),
{
    if by == SortKey::Symbol {
        lemma_lex_le_total(t[i].1.symbol@, t[j].1.symbol@);
    }
}

proof fn lemma_key_le_transitive(t: TokenEntries, by: SortKey, i: int, j: int, k: int)
    requires
        key_le(t, by, i, j),
        key_le(t, by, j, k),
    ensures
        key_le(t, by, i, k),
{
    if by == SortKey::Symbol {
        lemma_lex_le_transitive(t[i].1.symbol@, t[j].1.symbol@, t[k].1.symbol@);
    }
}

impl View for TokenTable {
    type V = TokenEntries;

    closed spec fn view(&self) -> TokenEntries {
        self.entries@.map_values(|e: (String, TokenInfo)| (e.0@, e.1))
    }
}

impl TokenTable {
    /// An empty table.
    pub fn new() -> (t: TokenTable)
        ensures
            t@ == Seq::<(Seq<char>, TokenInfo)>::empty(),
    {
        let t = TokenTable { entries: Vec::new() };
        assert(t@ =~= Seq::<(Seq<char>, TokenInfo)>::empty());
        t
    }

    /// The number of tokens.
    pub fn len(&self) -> (n: usize)
        ensures
            n == self@.len(),
    {
        self.entries.len()
    }

    /// The index of the entry with identifier `id`.
    fn find(&self, id: &str) -> (r: Option<usize>)
        ensures
            match r {
                Some(i) => i < self@.len() && self@[i as int].0 == id@ && forall|j: int| 0 <= j < i ==> self@[j].0 != id@,
                None => forall|j: int| 0 <= j < self@.len() ==> self@[j].0 != id@,
            },
    {
        let mut i: usize = 0;
        while i < self.entries.len()
            invariant
                i <= self.entries.len(),
                self@.len() == self.entries.len(),
                forall|j: int| 0 <= j < i ==> self@[j].0 != id@,
            decreases self.entries.len() - i,
        {
            assert(self@[i as int].0 == self.entries@[i as int].0@);
            if str_eq(self.entries[i].0.as_str(), id) {
                return Some(i);
            }
            i = i + 1;
        }
        None
    }

    /// Puts `info` under `id`: it replaces the token already there, or is
    /// added after the others.
    pub fn insert(&mut self, id: String, info: TokenInfo)
        ensures
            match spec_entry_index(old(self)@, id@) {
                Some(i) => final(self)@ == old(self)@.update(i, (id@, info)),
                None => final(self)@ == old(self)@.push((id@, info)),
            },
            spec_ids_distinct(old(self)@) ==> spec_ids_distinct(final(self)@),
    {
        match self.find(id.as_str()) {
            Some(i) => {
                let ghost pre = self@;
                assert(spec_entry_index(pre, id@) == Some(i as int)) by {
                    assert(is_first_entry(pre, id@, i as int));
                    let c = choose|k: int| is_first_entry(pre, id@, k);
                    lemma_first_entry_unique(pre, id@, i as int, c);
                }
                let ghost key = id@;
                self.entries.set(i, (id, info));
                assert(self@ =~= pre.update(i as int, (key, info)));
            },
            None => {
                let ghost pre = self@;
                let ghost key = id@;
                self.entries.push((id, info));
                assert(self@ =~= pre.push((key, info)));
            },
        }
    }

    /// The token under identifier `id`, if there is one.
    pub fn get(&self, id: &str) -> (r: Option<&TokenInfo>)
        ensures
            match spec_entry_index(self@, id@) {
                Some(i) => r == Some(&self@[i].1),
                None => r.is_none(),
            },
    {
        match self.find(id) {
            Some(i) => {
                assert(spec_entry_index(self@, id@) == Some(i as int)) by {
                    assert(is_first_entry(self@, id@, i as int));
                    let c = choose|k: int| is_first_entry(self@, id@, k);
                    lemma_first_entry_unique(self@, id@, i as int, c);
                }
                assert(self@[i as int].1 == self.entries@[i as int].1);
                Some(&self.entries[i].1)
            },
            None => {
                assert(!exists|k: int| is_first_entry(self@, id@, k));
                None
            },
        }
    }

    /// The token of entry `i`.
    fn entry_info(&self, i: usize) -> (r: &TokenInfo)
        requires
            i < self@.len(),
        ensures
            *r == self@[i as int].1,
    {
        &self.entries[i].1
    }

    /// The identifier of entry `i`.
    fn entry_id(&self, i: usize) -> (r: &String)
        requires
            i < self@.len(),
        ensures
            r@ == self@[i as int].0,
    {
        &self.entries[i].0
    }

    /// Whether entry `i` sorts no later than entry `j` by `by`.
    fn key_le_at(&self, by: SortKey, i: usize, j: usize) -> (r: bool)
        requires
            i < self@.len(),
            j < self@.len(),
        ensures
            r == key_le(self@, by, i as int, j as int),
    {
        assert(self@[i as int].1 == self.entries@[i as int].1);
        assert(self@[j as int].1 == self.entries@[j as int].1);
        match by {
            SortKey::Order => self.entries[i].1.order <= self.entries[j].1.order,
            SortKey::Symbol => lex_le_str(self.entries[i].1.symbol.as_str(), self.entries[j].1.symbol.as_str()),
        }
    }

    /// The indices of the entries in the order of a stable sort by `by`.
    pub fn sorted_indices(&self, by: SortKey) -> (p: Vec<usize>)
        ensures
            is_stable_sort(self@, by, p@),
    {
        let ghost t = self@;
        let n = self.entries.len();
        let mut p: Vec<usize> = Vec::new();
        let mut m: usize = 0;
        while m < n
            invariant
                t == self@,
                n == t.len(),
                m <= n,
                p.len() == m,
                forall|k: int| 0 <= k < p.len() ==> #[trigger] p@[k] < m,
                forall|i: usize| i < m ==> #[trigger] p@.contains(i),
                forall|a: int, b: int| 0 <= a < b < p.len() ==> ranks_before(t, by, #[trigger] p@[a] as int, #[trigger] p@[b] as int),
            decreases n - m,
        {
            let mut q: usize = p.len();
            while q > 0 && !self.key_le_at(by, p[q - 1], m)
                invariant
                    t == self@,
                    n == t.len(),
                    m < n,
                    q <= p.len(),
                    p.len() == m,
                    forall|k: int| 0 <= k < p.len() ==> #[trigger] p@[k] < m,
                    forall|a: int| q <= a < p.len() ==> !key_le(t, by, #[trigger] p@[a] as int, m as int),
                decreases q,
            {
                q = q - 1;
            }
            let ghost old_p = p@;
            proof {
                assert forall|a: int| 0 <= a < q implies key_le(t, by, #[trigger] old_p[a] as int, m as int) by {
                    if a < q - 1 {
                        assert(ranks_before(t, by, old_p[a] as int, old_p[q - 1] as int));
                        lemma_key_le_transitive(t, by, old_p[a] as int, old_p[q - 1] as int, m as int);
                    }
                }
                assert forall|a: int| q <= a < old_p.len() implies key_le(t, by, m as int, #[trigger] old_p[a] as int) by {
                    lemma_key_le_total(t, by, m as int, old_p[a] as int);
                }
            }
            p.insert(q, m);
            proof {
                assert forall|a: int, b: int| 0 <= a < b < p.len() implies ranks_before(t, by, #[trigger] p@[a] as int, #[trigger] p@[b] as int) by {
                    if b < q {
                        assert(p@[a] == old_p[a] && p@[b] == old_p[b]);
                    } else if b == q {
                        assert(p@[a] == old_p[a]);
                    } else if a == q {
                        assert(p@[b] == old_p[b - 1]);
                    } else if a < q {
                        assert(p@[a] == old_p[a] && p@[b] == old_p[b - 1]);
                    } else {
                        assert(p@[a] == old_p[a - 1] && p@[b] == old_p[b - 1]);
                    }
                }
                assert forall|k: int| 0 <= k < p.len() implies #[trigger] p@[k] < m + 1 by {
                    if k < q {
                        assert(p@[k] == old_p[k]);
                    } else if k > q {
                        assert(p@[k] == old_p[k - 1]);
                    }
                }
                assert forall|i: usize| i < m + 1 implies #[trigger] p@.contains(i) by {
                    if i < m {
                        assert(old_p.contains(i));
                        let k = choose|k: int| 0 <= k < old_p.len() && old_p[k] == i;
                        if k < q {
                            assert(p@[k] == i);
                        } else {
                            assert(p@[k + 1] == i);
                        }
                    } else {
                        assert(p@[q as int] == i);
                    }
                }
            }
            m = m + 1;
        }
        p
    }
}

impl TokenTable {
    /// The identifiers of all tokens, in a stable sort by ticker symbol.
    pub fn ids_by_symbol(&self) -> (r: Vec<String>)
        ensures
            exists|p: Seq<usize>| #[trigger] is_stable_sort(self@, SortKey::Symbol, p)
                && r@.len() == p.len()
                && forall|k: int| 0 <= k < p.len() ==> r@[k]@ == self@[#[trigger] p[k] as int].0,
    {
        let p = self.sorted_indices(SortKey::Symbol);
        let mut r: Vec<String> = Vec::new();
        let mut k: usize = 0;
        while k < p.len()
            invariant
                is_stable_sort(self@, SortKey::Symbol, p@),
                k <= p.len(),
                r@.len() == k,
                forall|j: int| 0 <= j < k ==> r@[j]@ == self@[#[trigger] p@[j] as int].0,
            decreases p.len() - k,
        {
            let id = self.entry_id(p[k]).clone();
            r.push(id);
            k = k + 1;
        }
        r
    }
}

/// A stable sort lists the entries in nondecreasing key order.
pub proof fn lemma_stable_sort_nondecreasing(t: TokenEntries, by: SortKey, p: Seq<usize>, a: int, b: int)
    requires
        is_stable_sort(t, by, p),
        0 <= a <= b < p.len(),
    ensures
        key_le(t, by, p[a] as int, p[b] as int),
{
    if a < b {
        assert(ranks_before(t, by, p[a] as int, p[b] as int));
    } else {
        if by == SortKey::Symbol {
            lemma_lex_le_reflexive(t[p[a] as int].1.symbol@);
        }
    }
}

proof fn lemma_ranks_before_asymmetric(t: TokenEntries, by: SortKey, i: int, j: int)
    ensures
        ranks_before(t, by, i, j) ==> !ranks_before(t, by, j, i),
{
}

proof fn lemma_stable_sorts_agree_below(t: TokenEntries, by: SortKey, p: Seq<usize>, q: Seq<usize>, k: int)
    requires
        is_stable_sort(t, by, p),
        is_stable_sort(t, by, q),
        0 <= k <= p.len(),
    ensures
        forall|j: int| 0 <= j < k ==> p[j] == q[j],
    decreases k,
{
    if k > 0 {
        lemma_stable_sorts_agree_below(t, by, p, q, k - 1);
        let x = p[k - 1];
        let y = q[k - 1];
        if x != y {
            assert(x < t.len());
            assert(q.contains(x));
            let m = choose|m: int| 0 <= m < q.len() && q[m] == x;
            assert(y < t.len());
            assert(p.contains(y));
            let n = choose|n: int| 0 <= n < p.len() && p[n] == y;
            if m < k - 1 {
                assert(p[m] == q[m]);
                assert(ranks_before(t, by, p[m] as int, p[k - 1] as int));
            } else if n < k - 1 {
                assert(p[n] == q[n]);
                assert(ranks_before(t, by, q[n] as int, q[k - 1] as int));
            } else {
                assert(m > k - 1 && n > k - 1);
                assert(ranks_before(t, by, p[k - 1] as int, p[n] as int));
                assert(ranks_before(t, by, q[k - 1] as int, q[m] as int));
                lemma_ranks_before_asymmetric(t, by, x as int, y as int);
            }
        }
    }
}

/// A stable sort orders the entries in exactly one way: two index lists that
/// are both stable sorts of the same table by the same key are equal.
pub proof fn lemma_stable_sort_unique(t: TokenEntries, by: SortKey, p: Seq<usize>, q: Seq<usize>)
    requires
        is_stable_sort(t, by, p),
        is_stable_sort(t, by, q),
    ensures
        p == q,
{
    lemma_stable_sorts_agree_below(t, by, p, q, p.len() as int);
    assert(p =~= q);
}

impl TokenInfo {
    /// All tokens of the table, in a stable sort by their `order` number.
    pub fn variants(table: &TokenTable) -> (r: Vec<TokenInfo>)
        ensures
            exists|p: Seq<usize>| #[trigger] is_stable_sort(table@, SortKey::Order, p)
                && r@.len() == p.len()
                && forall|k: int| 0 <= k < p.len() ==> r@[k] == table@[#[trigger] p[k] as int].1,
    {
        let p = table.sorted_indices(SortKey::Order);
        let mut r: Vec<TokenInfo> = Vec::new();
        let mut k: usize = 0;
        while k < p.len()
            invariant
                is_stable_sort(table@, SortKey::Order, p@),
                k <= p.len(),
                r@.len() == k,
                forall|j: int| 0 <= j < k ==> r@[j] == table@[#[trigger] p@[j] as int].1,
            decreases p.len() - k,
        {
            let info = table.entry_info(p[k]).clone();
            r.push(info);
            k = k + 1;
        }
        r
    }
}

} // verus!
