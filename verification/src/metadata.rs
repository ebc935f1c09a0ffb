//! The tunnels that cftun manages, by name.
use crate::text::{
    comes_before, lemma_precedes_irreflexive, lemma_precedes_total, lemma_precedes_transitive,
    precedes,
};
use vstd::prelude::*;

verus! {

/// What cftun knows of a tunnel.
#[derive(Debug)]
pub struct TunnelMeta {
    /// The id that Cloudflare gave the tunnel.
    pub uuid: String,
    /// The public host name that is routed to it.
    pub hostname: String,
    /// The URL of the local service that it forwards to.
    pub service: String,
    /// The file of its configuration.
    pub config_path: String,
}

/// The texts of a [`TunnelMeta`].
pub struct TunnelMetaView {
    pub uuid: Seq<char>,
    pub hostname: Seq<char>,
    pub service: Seq<char>,
    pub config_path: Seq<char>,
}

impl View for TunnelMeta {
    type V = TunnelMetaView;

    open spec fn view(&self) -> TunnelMetaView {
        TunnelMetaView {
            uuid: self.uuid@,
            hostname: self.hostname@,
            service: self.service@,
            config_path: self.config_path@,
        }
    }
}

impl Clone for TunnelMeta {
    fn clone(&self) -> (r: Self)
        ensures
            r == *self,
    {
        TunnelMeta {
            uuid: self.uuid.clone(),
            hostname: self.hostname.clone(),
            service: self.service.clone(),
            config_path: self.config_path.clone(),
        }
    }
}

/// A tunnel of which nothing is known.
pub open spec fn no_tunnel_view() -> TunnelMetaView {
    TunnelMetaView {
        uuid: Seq::empty(),
        hostname: Seq::empty(),
        service: Seq::empty(),
        config_path: Seq::empty(),
    }
}

/// A tunnel of which nothing is known.
pub fn no_tunnel() -> (r: TunnelMeta)
    ensures
        r@ == no_tunnel_view(),
{
    TunnelMeta {
        uuid: String::new(),
        hostname: String::new(),
        service: String::new(),
        config_path: String::new(),
    }
}

/// A tunnel under its name.
#[derive(Debug)]
struct Entry {
    name: String,
    tunnel: TunnelMeta,
}

impl Clone for Entry {
    fn clone(&self) -> (r: Self)
        ensures
            r == *self,
    {
        Entry { name: self.name.clone(), tunnel: self.tunnel.clone() }
    }
}

/// Whether each of `names` comes before the ones behind it.
pub open spec fn ascending(names: Seq<Seq<char>>) -> bool {
    forall|i: int, j: int| 0 <= i < j < names.len() ==> #[trigger] precedes(names[i], names[j])
}

/// Whether `names` are the names in `m`, in order.
pub open spec fn is_listing(m: Map<Seq<char>, TunnelMetaView>, names: Seq<Seq<char>>) -> bool {
    &&& ascending(names)
    &&& forall|n: Seq<char>| names.contains(n) <==> #[trigger] m.contains_key(n)
}

/// The names in `m`, in order.
pub open spec fn listing(m: Map<Seq<char>, TunnelMetaView>) -> Seq<Seq<char>> {
    choose|names: Seq<Seq<char>>| is_listing(m, names)
}

/// Whether a tunnel of `m` has its configuration at `path`.
pub open spec fn claims(m: Map<Seq<char>, TunnelMetaView>, path: Seq<char>) -> bool {
    exists|name: Seq<char>| #[trigger] m.contains_key(name) && m[name].config_path == path
}

/// Where `name` belongs among `names`.
spec fn rank(names: Seq<Seq<char>>, name: Seq<char>) -> int
    decreases names.len(),
{
    if names.len() == 0 {
        0
    } else if precedes(names.last(), name) {
        names.len() as int
    } else {
        rank(names.drop_last(), name)
    }
}

/// What stands before the place of `name` comes before it, and what stands at or
/// behind it does not.
proof fn lemma_rank(names: Seq<Seq<char>>, name: Seq<char>)
    requires
        ascending(names),
    ensures
        0 <= rank(names, name) <= names.len(),
        forall|i: int| 0 <= i < rank(names, name) ==> precedes(#[trigger] names[i], name),
        forall|i: int| rank(names, name) <= i < names.len() ==> !precedes(#[trigger] names[i], name),
    decreases names.len(),
{
    if names.len() > 0 {
        let front = names.drop_last();
        let last = names.last();
        assert forall|i: int, j: int| 0 <= i < j < front.len() implies #[trigger] precedes(
            front[i],
            front[j],
        ) by {
            assert(precedes(names[i], names[j]));
        }
        lemma_rank(front, name);
        if precedes(last, name) {
            assert forall|i: int| 0 <= i < names.len() implies precedes(
                #[trigger] names[i],
                name,
            ) by {
                if i < names.len() - 1 {
                    assert(precedes(names[i], names[names.len() - 1]));
                    lemma_precedes_transitive(names[i], last, name);
                }
            }
        } else {
            assert forall|i: int| rank(names, name) <= i < names.len() implies !precedes(
                #[trigger] names[i],
                name,
            ) by {
                if i < names.len() - 1 {
                    assert(names[i] == front[i]);
                }
            }
            assert forall|i: int| 0 <= i < rank(names, name) implies precedes(
                #[trigger] names[i],
                name,
            ) by {
                assert(names[i] == front[i]);
            }
        }
    }
}

/// The names of finitely many tunnels can be listed.
pub proof fn lemma_listing_exists(m: Map<Seq<char>, TunnelMetaView>)
    requires
        m.dom().finite(),
    ensures
        is_listing(m, listing(m)),
    decreases m.dom().len(),
{
    if m.dom().len() == 0 {
        let none: Seq<Seq<char>> = Seq::empty();
        assert forall|n: Seq<char>| none.contains(n) <==> #[trigger] m.contains_key(n) by {
            assert(m.dom() =~= Set::empty());
        }
        assert(is_listing(m, none));
    } else {
        let name = m.dom().choose();
        let rest = m.remove(name);
        assert(m.contains_key(name));
        lemma_listing_exists(rest);
        let names = listing(rest);
        let p = rank(names, name);
        lemma_rank(names, name);
        let all = names.insert(p, name);
        assert forall|n: Seq<char>| all.contains(n) <==> #[trigger] m.contains_key(n) by {
            if all.contains(n) && n != name {
                let k = choose|k: int| 0 <= k < all.len() && all[k] == n;
                let q: int = if k < p { k } else { k - 1 };
                assert(names[q] == n);
                assert(names.contains(n));
                assert(rest.contains_key(n));
            }
            if m.contains_key(n) && n != name {
                assert(rest.contains_key(n));
                let k = choose|k: int| 0 <= k < names.len() && names[k] == n;
                let q: int = if k < p { k } else { k + 1 };
                assert(all[q] == n);
            }
            assert(all[p] == name);
        }
        assert forall|i: int, j: int| 0 <= i < j < all.len() implies #[trigger] precedes(
            all[i],
            all[j],
        ) by {
            let a: int = if i < p { i } else { i - 1 };
            let b: int = if j < p { j } else { j - 1 };
            if i != p && j != p {
                assert(precedes(names[a], names[b]));
            } else if j == p {
                assert(precedes(names[i], name));
            } else {
                assert(!precedes(names[b], name));
                lemma_precedes_total(names[b], name);
                assert(names.contains(names[b]));
                assert(rest.contains_key(names[b]));
            }
        }
        assert(is_listing(m, all));
    }
}

/// In one order the names of `m` can be listed in one way only.
pub proof fn lemma_listing_is_unique(
    m: Map<Seq<char>, TunnelMetaView>,
    a: Seq<Seq<char>>,
    b: Seq<Seq<char>>,
)
    requires
        is_listing(m, a),
        is_listing(m, b),
    ensures
        a == b,
{
    lemma_same_start(m, a, b, a.len() as int);
    lemma_same_start(m, b, a, b.len() as int);
    assert(a =~= b);
}

/// The first `n` names of one listing stand at the same places in another.
proof fn lemma_same_start(
    m: Map<Seq<char>, TunnelMetaView>,
    a: Seq<Seq<char>>,
    b: Seq<Seq<char>>,
    n: int,
)
    requires
        is_listing(m, a),
        is_listing(m, b),
        0 <= n <= a.len(),
    ensures
        n <= b.len(),
        forall|i: int| 0 <= i < n ==> a[i] == b[i],
    decreases n,
{
    if n > 0 {
        let last = n - 1;
        lemma_same_start(m, a, b, last);
        assert(a.contains(a[last]));
        assert(m.contains_key(a[last]));
        let k = choose|k: int| 0 <= k < b.len() && b[k] == a[last];
        lemma_precedes_irreflexive(a[last]);
        if k < last {
            assert(precedes(a[k], a[last]));
        }
        assert(k >= last);
        if k > last {
            assert(precedes(b[last], b[k]));
            assert(b.contains(b[last]));
            assert(m.contains_key(b[last]));
            let l = choose|l: int| 0 <= l < a.len() && a[l] == b[last];
            if l < last {
                assert(precedes(b[l], b[last]));
                lemma_precedes_irreflexive(b[last]);
            } else if l > last {
                assert(precedes(a[last], a[l]));
                lemma_precedes_transitive(a[last], b[last], a[last]);
            }
            assert(false);
        }
    }
}

/// The tunnels that cftun manages. No two have the same name.
#[derive(Debug)]
pub struct Metadata {
    entries: Vec<Entry>,
}

/// The names of `entries`.
spec fn names_of(entries: Seq<Entry>) -> Seq<Seq<char>> {
    Seq::new(entries.len(), |i: int| entries[i].name@)
}

/// The place of the entry `name` in `entries`.
spec fn place_of(entries: Seq<Entry>, name: Seq<char>) -> int {
    choose|i: int| 0 <= i < entries.len() && (#[trigger] entries[i]).name@ == name
}

/// What `entries` hold, by name.
spec fn map_of(entries: Seq<Entry>) -> Map<Seq<char>, TunnelMetaView> {
    Map::new(
        |n: Seq<char>| names_of(entries).contains(n),
        |n: Seq<char>| entries[place_of(entries, n)].tunnel@,
    )
}

/// What stands at a place is what is found under its name.
proof fn lemma_map_of(entries: Seq<Entry>, i: int)
    requires
        ascending(names_of(entries)),
        0 <= i < entries.len(),
    ensures
        map_of(entries).contains_key(entries[i].name@),
        map_of(entries)[entries[i].name@] == entries[i].tunnel@,
{
    let n = entries[i].name@;
    assert(names_of(entries)[i] == n);
    assert(names_of(entries).contains(n));
    let k = place_of(entries, n);
    assert(0 <= k < entries.len() && entries[k].name@ == n);
    lemma_precedes_irreflexive(n);
    if k < i {
        assert(precedes(names_of(entries)[k], names_of(entries)[i]));
    } else if i < k {
        assert(precedes(names_of(entries)[i], names_of(entries)[k]));
    }
}

impl View for Metadata {
    type V = Map<Seq<char>, TunnelMetaView>;

    closed spec fn view(&self) -> Map<Seq<char>, TunnelMetaView> {
        map_of(self.entries@)
    }
}

impl Metadata {
    #[verifier::type_invariant]
    spec fn in_order(self) -> bool {
        ascending(names_of(self.entries@))
    }

    /// No tunnels.
    pub fn new() -> (r: Metadata)
        ensures
            r@ == Map::<Seq<char>, TunnelMetaView>::empty(),
    {
        let r = Metadata { entries: Vec::new() };
        assert(r@ =~= Map::<Seq<char>, TunnelMetaView>::empty());
        r
    }

    /// The first place whose name does not come before `name`.
    fn place(&self, name: &str) -> (r: usize)
        ensures
            r <= self.entries.len(),
            forall|i: int| 0 <= i < r ==> precedes(#[trigger] self.entries@[i].name@, name@),
            r < self.entries.len() ==> !precedes(self.entries@[r as int].name@, name@),
    {
        let mut i: usize = 0;
        while i < self.entries.len() && comes_before(self.entries[i].name.as_str(), name)
            invariant
                i <= self.entries.len(),
                forall|j: int| 0 <= j < i ==> precedes(#[trigger] self.entries@[j].name@, name@),
            decreases self.entries.len() - i,
        {
            i += 1;
        }
        i
    }

    /// The place of `name`, if it is there.
    fn find(&self, name: &str) -> (r: Option<usize>)
        ensures
            match r {
                Some(i) => i < self.entries.len() && self.entries@[i as int].name@ == name@,
                None => !self@.contains_key(name@),
            },
    {
        proof {
            use_type_invariant(self);
        }
        let i = self.place(name);
        let ghost names = names_of(self.entries@);
        if i < self.entries.len() && !comes_before(name, self.entries[i].name.as_str()) {
            proof {
                lemma_precedes_total(name@, self.entries@[i as int].name@);
            }
            return Some(i);
        }
        proof {
            if names.contains(name@) {
                let k = choose|k: int| 0 <= k < names.len() && names[k] == name@;
                lemma_precedes_irreflexive(name@);
                assert(self.entries@[k].name@ == name@);
                if k > i {
                    assert(precedes(names[i as int], names[k]));
                }
            }
        }
        None
    }

    /// Whether there is a tunnel `name`.
    pub fn contains_key(&self, name: &str) -> (r: bool)
        ensures
            r == self@.contains_key(name@),
    {
        proof {
            use_type_invariant(self);
        }
        match self.find(name) {
            Some(i) => {
                proof {
                    lemma_map_of(self.entries@, i as int);
                }
                true
            },
            None => false,
        }
    }

    /// The tunnel `name`.
    pub fn get(&self, name: &str) -> (r: Option<&TunnelMeta>)
        ensures
            match r {
                Some(t) => self@.contains_key(name@) && t@ == self@[name@],
                None => !self@.contains_key(name@),
            },
    {
        proof {
            use_type_invariant(self);
        }
        match self.find(name) {
            Some(i) => {
                proof {
                    lemma_map_of(self.entries@, i as int);
                }
                Some(&self.entries[i].tunnel)
            },
            None => None,
        }
    }

    /// Whether a tunnel has its configuration at `path`.
    pub fn has_config_at(&self, path: &String) -> (r: bool)
        ensures
            r == claims(self@, path@),
    {
        proof {
            use_type_invariant(self);
        }
        let mut i: usize = 0;
        while i < self.entries.len()
            invariant
                i <= self.entries.len(),
                ascending(names_of(self.entries@)),
                forall|j: int|
                    0 <= j < i ==> (#[trigger] self.entries@[j]).tunnel.config_path@ != path@,
            decreases self.entries.len() - i,
        {
            if self.entries[i].tunnel.config_path == *path {
                proof {
                    lemma_map_of(self.entries@, i as int);
                }
                return true;
            }
            i += 1;
        }
        proof {
            if claims(self@, path@) {
                let name = choose|name: Seq<char>| #[trigger]
                    self@.contains_key(name) && self@[name].config_path == path@;
                let names = names_of(self.entries@);
                let k = choose|k: int| 0 <= k < names.len() && names[k] == name;
                lemma_map_of(self.entries@, k);
            }
        }
        false
    }

    /// The number of tunnels.
    pub fn len(&self) -> (r: usize)
        ensures
            self@.dom().finite(),
            r == self@.dom().len(),
            r == listing(self@).len(),
    {
        proof {
            use_type_invariant(self);
            self.lemma_listing();
            let names = names_of(self.entries@);
            assert(names.no_duplicates()) by {
                assert forall|i: int, j: int|
                    0 <= i < names.len() && 0 <= j < names.len() && i != j implies names[i]
                    != names[j] by {
                    lemma_precedes_irreflexive(names[i]);
                    if i < j {
                        assert(precedes(names[i], names[j]));
                    } else {
                        assert(precedes(names[j], names[i]));
                    }
                }
            }
            names.unique_seq_to_set();
            assert(names.to_set() =~= self@.dom());
        }
        self.entries.len()
    }

    /// The names of the entries are the listing.
    proof fn lemma_listing(&self)
        requires
            ascending(names_of(self.entries@)),
        ensures
            is_listing(self@, names_of(self.entries@)),
            listing(self@) == names_of(self.entries@),
    {
        let names = names_of(self.entries@);
        assert(is_listing(self@, names));
        lemma_listing_is_unique(self@, names, listing(self@));
    }

    /// Whether there are no tunnels.
    pub fn is_empty(&self) -> (r: bool)
        ensures
            r == (self@ == Map::<Seq<char>, TunnelMetaView>::empty()),
            r == (listing(self@).len() == 0),
    {
        proof {
            use_type_invariant(self);
            self.lemma_listing();
            if self.entries@.len() == 0 {
                assert(self@ =~= Map::<Seq<char>, TunnelMetaView>::empty());
            } else {
                lemma_map_of(self.entries@, 0);
            }
        }
        self.entries.len() == 0
    }

    /// The names of the tunnels, in order.
    pub fn names(&self) -> (r: Vec<String>)
        ensures
            r.deep_view() == listing(self@),
            is_listing(self@, r.deep_view()),
    {
        proof {
            use_type_invariant(self);
            self.lemma_listing();
        }
        let mut out: Vec<String> = Vec::new();
        let mut i: usize = 0;
        while i < self.entries.len()
            invariant
                i <= self.entries.len(),
                out.len() == i,
                forall|j: int| 0 <= j < i ==> (#[trigger] out@[j])@ == self.entries@[j].name@,
            decreases self.entries.len() - i,
        {
            out.push(self.entries[i].name.clone());
            i += 1;
        }
        assert(out.deep_view() =~= names_of(self.entries@));
        out
    }

    /// Puts `tunnel` under `name`, in place of what was there.
    pub fn insert(&mut self, name: String, tunnel: TunnelMeta)
        ensures
            final(self)@ == old(self)@.insert(name@, tunnel@),
    {
        proof {
            use_type_invariant(&*self);
        }
        let ghost before = self.entries@;
        let i = self.place(name.as_str());
        let taken = i < self.entries.len() && !comes_before(
            name.as_str(),
            self.entries[i].name.as_str(),
        );
        let mut entries: Vec<Entry> = Vec::new();
        std::mem::swap(&mut entries, &mut self.entries);
        let ghost names = names_of(before);
        proof {
            lemma_precedes_irreflexive(name@);
            if i < before.len() {
                lemma_precedes_total(name@, before[i as int].name@);
                assert forall|j: int| i < j < before.len() implies precedes(
                    name@,
                    #[trigger] before[j].name@,
                ) by {
                    assert(precedes(names[i as int], names[j]));
                    if !taken {
                        lemma_precedes_transitive(
                            name@,
                            before[i as int].name@,
                            before[j].name@,
                        );
                    }
                }
            }
        }
        if taken {
            entries.remove(i);
        }
        let ghost middle = entries@;
        assert(forall|j: int|
            0 <= j < middle.len() ==> #[trigger] middle[j] == before[if taken && j >= i {
                j + 1
            } else {
                j
            }]);
        entries.insert(i, Entry { name, tunnel });
        let ghost after = entries@;
        proof {
            assert forall|j: int| 0 <= j < after.len() implies #[trigger] after[j] == (if j == i {
                Entry { name, tunnel }
            } else if j < i || taken {
                before[j]
            } else {
                before[j - 1]
            }) by {
                if j > i {
                    assert(after[j] == middle[j - 1]);
                } else if j < i {
                    assert(after[j] == middle[j]);
                }
            }
            assert forall|a: int, b: int| 0 <= a < b < after.len() implies #[trigger] precedes(
                names_of(after)[a],
                names_of(after)[b],
            ) by {
                let p: int = if a < i || taken { a } else { a - 1 };
                let q: int = if b < i || taken { b } else { b - 1 };
                if a != i && b != i {
                    assert(precedes(names[p], names[q]));
                }
            }
            assert forall|n: Seq<char>| #[trigger]
                names_of(after).contains(n) == (n == name@ || names.contains(n)) by {
                if names_of(after).contains(n) && n != name@ {
                    let k = choose|k: int|
                        0 <= k < names_of(after).len() && names_of(after)[k] == n;
                    let p: int = if k < i || taken { k } else { k - 1 };
                    assert(after[k].name@ == n);
                    assert(names[p] == n);
                }
                if names.contains(n) && n != name@ {
                    let k = choose|k: int| 0 <= k < names.len() && names[k] == n;
                    let p: int = if k < i || taken { k } else { k + 1 };
                    assert(after[p].name@ == n);
                    assert(names_of(after)[p] == n);
                }
                if n == name@ {
                    assert(names_of(after)[i as int] == n);
                }
            }
            assert forall|n: Seq<char>| names_of(after).contains(n) implies #[trigger] map_of(
                after,
            )[n] == map_of(before).insert(name@, tunnel@)[n] by {
                let k = choose|k: int| 0 <= k < names_of(after).len() && names_of(after)[k] == n;
                assert(after[k].name@ == n);
                lemma_map_of(after, k);
                let p: int = if k < i || taken { k } else { k - 1 };
                if k != i {
                    lemma_map_of(before, p);
                    if n == name@ {
                        lemma_map_of(after, i as int);
                    }
                }
            }
            let target = map_of(before).insert(name@, tunnel@);
            assert forall|n: Seq<char>| #[trigger] map_of(after).contains_key(n)
                == target.contains_key(n) by {
                assert(names_of(after).contains(n) == (n == name@ || names.contains(n)));
            }
            assert(map_of(after) =~= target);
        }
        self.entries = entries;
    }

    /// Takes out the tunnel `name`, if it is there.
    pub fn remove(&mut self, name: &str)
        ensures
            final(self)@ == old(self)@.remove(name@),
    {
        proof {
            use_type_invariant(&*self);
        }
        let ghost before = self.entries@;
        let ghost names = names_of(before);
        match self.find(name) {
            Some(i) => {
                let mut entries: Vec<Entry> = Vec::new();
                std::mem::swap(&mut entries, &mut self.entries);
                entries.remove(i);
                let ghost after = entries@;
                proof {
                    lemma_precedes_irreflexive(name@);
                    assert forall|a: int, b: int|
                        0 <= a < b < after.len() implies #[trigger] precedes(
                        names_of(after)[a],
                        names_of(after)[b],
                    ) by {
                        let p: int = if a < i { a } else { a + 1 };
                        let q: int = if b < i { b } else { b + 1 };
                        assert(precedes(names[p], names[q]));
                    }
                    assert forall|n: Seq<char>| #[trigger]
                        names_of(after).contains(n) == (n != name@ && names.contains(n)) by {
                        if names_of(after).contains(n) {
                            let k = choose|k: int|
                                0 <= k < names_of(after).len() && names_of(after)[k] == n;
                            let p: int = if k < i { k } else { k + 1 };
                            assert(names[p] == n);
                            if k < i {
                                assert(precedes(names[p], names[i as int]));
                            } else {
                                assert(precedes(names[i as int], names[p]));
                            }
                        }
                        if names.contains(n) && n != name@ {
                            let k = choose|k: int| 0 <= k < names.len() && names[k] == n;
                            let p: int = if k < i { k } else { k - 1 };
                            assert(after[p].name@ == n);
                            assert(names_of(after)[p] == n);
                        }
                    }
                    assert forall|n: Seq<char>|
                        names_of(after).contains(n) implies #[trigger] map_of(after)[n] == map_of(
                        before,
                    )[n] by {
                        let k = choose|k: int|
                            0 <= k < names_of(after).len() && names_of(after)[k] == n;
                        assert(after[k].name@ == n);
                        lemma_map_of(after, k);
                        let p: int = if k < i { k } else { k + 1 };
                        lemma_map_of(before, p);
                    }
                    assert(map_of(after) =~= map_of(before).remove(name@));
                }
                self.entries = entries;
            },
            None => {
                assert(self@ =~= self@.remove(name@));
            },
        }
    }
}

impl Default for Metadata {
    fn default() -> (r: Self)
        ensures
            r@ == Map::<Seq<char>, TunnelMetaView>::empty(),
    {
        Metadata::new()
    }
}

impl Clone for Metadata {
    fn clone(&self) -> (r: Self)
        ensures
            r@ == self@,
    {
        proof {
            use_type_invariant(self);
        }
        let mut entries: Vec<Entry> = Vec::new();
        let mut i: usize = 0;
        while i < self.entries.len()
            invariant
                i <= self.entries.len(),
                entries@ == self.entries@.take(i as int),
            decreases self.entries.len() - i,
        {
            entries.push(self.entries[i].clone());
            i += 1;
        }
        assert(entries@ =~= self.entries@);
        Metadata { entries }
    }
}

/// The names of finitely many tunnels are listed in order, each once, and none is
/// left out.
pub proof fn law_listing(m: Map<Seq<char>, TunnelMetaView>)
    requires
        m.dom().finite(),
    ensures
        forall|i: int, j: int|
            0 <= i < j < listing(m).len() ==> precedes(
                #[trigger] listing(m)[i],
                #[trigger] listing(m)[j],
            ),
        forall|name: Seq<char>| #[trigger] m.contains_key(name) <==> listing(m).contains(name),
{
    lemma_listing_exists(m);
}

/// A path is claimed exactly by the managed tunnel whose configuration is there.
pub proof fn law_claims(
    m: Map<Seq<char>, TunnelMetaView>,
    name: Seq<char>,
    tunnel: TunnelMetaView,
    path: Seq<char>,
)
    ensures
        !claims(Map::empty(), path),
        !m.contains_key(name) ==> (claims(m.insert(name, tunnel), path) <==> tunnel.config_path
            == path || claims(m, path)),
{
    let more = m.insert(name, tunnel);
    if !m.contains_key(name) {
        if claims(m, path) {
            let n = choose|n: Seq<char>| #[trigger] m.contains_key(n) && m[n].config_path == path;
            assert(more.contains_key(n) && more[n].config_path == path);
        }
        if tunnel.config_path == path {
            assert(more.contains_key(name) && more[name].config_path == path);
        }
        if claims(more, path) && tunnel.config_path != path {
            let n = choose|n: Seq<char>| #[trigger]
                more.contains_key(n) && more[n].config_path == path;
            assert(m.contains_key(n) && m[n].config_path == path);
        }
    }
}

/// What is said of a tunnel is said of all that is noted of it.
pub proof fn law_tunnel_in_view(t: TunnelMeta)
    ensures
        t@.uuid == t.uuid@,
        t@.hostname == t.hostname@,
        t@.service == t.service@,
        t@.config_path == t.config_path@,
{
}

} // verus!
