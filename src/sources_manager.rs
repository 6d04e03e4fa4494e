use vstd::prelude::*;
use crate::chat_types::SourceInfo;
use crate::text::str_eq;

verus! {

/// A chat source that the manager can hold. Sources implement it.
pub trait ChatSource {
    /// Identifier of the source (telegram, signal, whatsapp).
    fn source_id(&self) -> &str;

    /// Display name of the source.
    fn source_name(&self) -> &str;

    /// Whether the source is connected now.
    fn is_connected(&self) -> bool;
}

/// Whether `a` comes strictly before `b`, character by character, a proper
/// prefix first: the order of `str::cmp`.
pub open spec fn text_less(a: Seq<char>, b: Seq<char>) -> bool
    decreases a.len(),
{
    if a.len() == 0 {
        b.len() > 0
    } else if b.len() == 0 {
        false
    } else if a[0] != b[0] {
        a[0] < b[0]
    } else {
        text_less(a.drop_first(), b.drop_first())
    }
}

/// Of two texts, exactly one comes first, or they are equal.
proof fn lemma_text_trichotomy(a: Seq<char>, b: Seq<char>)
    ensures
        a == b || text_less(a, b) || text_less(b, a),
        !(text_less(a, b) && text_less(b, a)),
        !text_less(a, a),
    decreases a.len(),
{
    if a.len() > 0 && b.len() > 0 && a[0] == b[0] {
        lemma_text_trichotomy(a.drop_first(), b.drop_first());
        if a.drop_first() == b.drop_first() {
            assert(a =~= seq![a[0]] + a.drop_first());
            assert(b =~= seq![b[0]] + b.drop_first());
        }
    }
    if a.len() > 0 {
        lemma_text_trichotomy(a.drop_first(), a.drop_first());
    }
    if a.len() == 0 && b.len() == 0 {
        assert(a =~= b);
    }
}

/// The order of texts is transitive.
proof fn lemma_text_transitive(a: Seq<char>, b: Seq<char>, c: Seq<char>)
    requires
        text_less(a, b),
        text_less(b, c),
    ensures
        text_less(a, c),
    decreases a.len(),
{
    if a.len() > 0 && b.len() > 0 && c.len() > 0 && a[0] == b[0] && b[0] == c[0] {
        lemma_text_transitive(a.drop_first(), b.drop_first(), c.drop_first());
    }
}

/// -1, 0 or 1 as `a` comes before, equals, or comes after `b`.
fn compare_text(a: &str, b: &str) -> (r: i8)
    ensures
        r == 0 <==> a@ == b@,
        r < 0 <==> text_less(a@, b@),
        r > 0 <==> text_less(b@, a@),
{
    proof {
        lemma_text_trichotomy(a@, b@);
    }
    let n = a.unicode_len();
    let m = b.unicode_len();
    let mut i: usize = 0;
    assert(a@.subrange(0, n as int) =~= a@);
    assert(b@.subrange(0, m as int) =~= b@);
    while i < n && i < m
        invariant
            n == a@.len(),
            m == b@.len(),
            i <= n,
            i <= m,
            a@.subrange(0, i as int) == b@.subrange(0, i as int),
            text_less(a@, b@) == text_less(a@.subrange(i as int, n as int), b@.subrange(i as int, m as int)),
            text_less(b@, a@) == text_less(b@.subrange(i as int, m as int), a@.subrange(i as int, n as int)),
        decreases n - i,
    {
        let x = a.get_char(i);
        let y = b.get_char(i);
        let ghost ra = a@.subrange(i as int, n as int);
        let ghost rb = b@.subrange(i as int, m as int);
        assert(ra[0] == x && rb[0] == y);
        if x < y {
            return -1;
        }
        if x > y {
            return 1;
        }
        assert(ra.drop_first() =~= a@.subrange(i + 1, n as int));
        assert(rb.drop_first() =~= b@.subrange(i + 1, m as int));
        assert(a@.subrange(0, i + 1) =~= a@.subrange(0, i as int).push(x));
        assert(b@.subrange(0, i + 1) =~= b@.subrange(0, i as int).push(y));
        i += 1;
    }
    let ghost ra = a@.subrange(i as int, n as int);
    let ghost rb = b@.subrange(i as int, m as int);
    if n == m {
        assert(a@ =~= a@.subrange(0, i as int));
        assert(b@ =~= b@.subrange(0, i as int));
        assert(ra.len() == 0 && rb.len() == 0);
        0
    } else if n < m {
        assert(ra.len() == 0 && rb.len() > 0);
        -1
    } else {
        assert(rb.len() == 0 && ra.len() > 0);
        1
    }
}

/// Why the manager refused a request about a source.
#[derive(Debug, Clone, Copy, PartialEq, Eq, Structural)]
pub enum SourceError {
    /// A source with that identifier is already registered.
    AlreadyRegistered,
    /// No source has that identifier.
    NotFound,
    /// The source is not connected.
    NotConnected,
}

/// A registered source, with the identifier and name it gave when it was registered.
pub struct Registered<S: ChatSource> {
    id: String,
    name: String,
    source: S,
}

/// The chat sources in use, each under its own identifier.
pub struct SourcesManager<S: ChatSource> {
    sources: Vec<Registered<S>>,
}

/// Whether a list of texts is in strictly increasing order.
pub open spec fn strictly_sorted(ids: Seq<Seq<char>>) -> bool {
    forall|i: int, j: int| 0 <= i < j < ids.len() ==> text_less(#[trigger] ids[i], #[trigger] ids[j])
}

impl<S: ChatSource> SourcesManager<S> {
    /// The identifiers of the registered sources, in order.
    pub closed spec fn ids(&self) -> Seq<Seq<char>> {
        self.sources@.map_values(|e: Registered<S>| e.id@)
    }

    /// The display names of the registered sources, in the same order.
    pub closed spec fn names(&self) -> Seq<Seq<char>> {
        self.sources@.map_values(|e: Registered<S>| e.name@)
    }

    /// The sources are held in increasing order of identifier, so that no
    /// identifier occurs twice.
    pub closed spec fn wf(&self) -> bool {
        strictly_sorted(self.ids())
    }

    /// A manager with no sources.
    pub fn new() -> (r: Self)
        ensures
            r.wf(),
            r.ids().len() == 0,
    {
        let r = SourcesManager { sources: Vec::new() };
        assert(r.ids() =~= Seq::<Seq<char>>::empty());
        r
    }

    /// The position at which a source with identifier `id` belongs, and
    /// whether one is already there.
    fn locate(&self, id: &str) -> (r: (usize, bool))
        requires
            self.wf(),
        ensures
            r.0 <= self.ids().len(),
            forall|k: int| 0 <= k < r.0 ==> text_less(#[trigger] self.ids()[k], id@),
            r.1 ==> r.0 < self.ids().len() && self.ids()[r.0 as int] == id@,
            !r.1 ==> forall|k: int| r.0 <= k < self.ids().len() ==> text_less(id@, #[trigger] self.ids()[k]),
    {
        let mut i: usize = 0;
        while i < self.sources.len()
            invariant
                self.wf(),
                i <= self.sources@.len(),
                forall|k: int| 0 <= k < i ==> text_less(#[trigger] self.ids()[k], id@),
            decreases self.sources@.len() - i,
        {
            let c = compare_text(self.sources[i].id.as_str(), id);
            assert(self.ids()[i as int] == self.sources@[i as int].id@);
            if c == 0 {
                return (i, true);
            }
            if c > 0 {
                assert forall|k: int| i <= k < self.ids().len() implies text_less(id@, #[trigger] self.ids()[k]) by {
                    if k > i {
                        assert(text_less(self.ids()[i as int], self.ids()[k]));
                        lemma_text_transitive(id@, self.ids()[i as int], self.ids()[k]);
                    }
                }
                return (i, false);
            }
            i += 1;
        }
        (i, false)
    }

    /// Adds a source under the identifier it gives; a source with the same
    /// identifier must not be registered already.
    pub fn register(&mut self, source: S) -> (r: Result<(), SourceError>)
        requires
            old(self).wf(),
        ensures
            final(self).wf(),
            exists|id: Seq<char>|
                {
                    &&& old(self).ids().contains(id) ==> r == Err::<(), SourceError>(
                        SourceError::AlreadyRegistered,
                    ) && final(self).ids() == old(self).ids()
                    &&& !old(self).ids().contains(id) ==> r is Ok && final(self).ids().to_set()
                        == old(self).ids().to_set().insert(id) && final(self).ids().len() == old(
                        self,
                    ).ids().len() + 1
                    &&& #[trigger] final(self).ids().contains(id)
                },
    {
        let id = source.source_id().to_owned();
        let (pos, found) = self.locate(id.as_str());
        if found {
            assert(self.ids()[pos as int] == id@);
            assert(self.ids().contains(id@));
            return Err(SourceError::AlreadyRegistered);
        }
        let ghost before = self.ids();
        let ghost new_id = id@;
        proof {
            assert forall|k: int| 0 <= k < before.len() implies before[k] != new_id by {
                if k < pos {
                    lemma_text_trichotomy(before[k], new_id);
                } else {
                    lemma_text_trichotomy(new_id, before[k]);
                }
            }
        }
        let name = source.source_name().to_owned();
        self.sources.insert(pos, Registered { id: id.clone(), name, source });
        let ghost after = self.ids();
        assert(after =~= before.insert(pos as int, new_id));
        assert forall|i: int, j: int| 0 <= i < j < after.len() implies text_less(#[trigger] after[i], #[trigger] after[j]) by {
            if j < pos {
                assert(after[i] == before[i] && after[j] == before[j]);
            } else if j == pos {
                assert(after[i] == before[i]);
            } else if i < pos {
                assert(after[i] == before[i] && after[j] == before[j - 1]);
                lemma_text_transitive(before[i], new_id, before[j - 1]);
            } else if i == pos {
                assert(after[j] == before[j - 1]);
            } else {
                assert(after[i] == before[i - 1] && after[j] == before[j - 1]);
            }
        }
        assert(after.to_set() =~= before.to_set().insert(new_id)) by {
            assert forall|x: Seq<char>| after.to_set().contains(x) <==> before.to_set().insert(new_id).contains(x) by {
                if after.contains(x) {
                    let k = choose|k: int| 0 <= k < after.len() && after[k] == x;
                    if k < pos {
                        assert(before[k] == x);
                    } else if k > pos {
                        assert(before[k - 1] == x);
                    }
                }
                if before.contains(x) {
                    let k = choose|k: int| 0 <= k < before.len() && before[k] == x;
                    if k < pos {
                        assert(after[k] == x);
                    } else {
                        assert(after[k + 1] == x);
                    }
                }
                if x == new_id {
                    assert(after[pos as int] == x);
                }
            }
        }
        assert(after[pos as int] == new_id);
        assert(after.contains(new_id));
        assert(!before.contains(new_id));
        Ok(())
    }

    /// Removes the source with identifier `source_id`.
    pub fn unregister(&mut self, source_id: &str) -> (r: Result<(), SourceError>)
        requires
            old(self).wf(),
        ensures
            final(self).wf(),
            !old(self).ids().contains(source_id@) ==> r == Err::<(), SourceError>(SourceError::NotFound)
                && final(self).ids() == old(self).ids(),
            old(self).ids().contains(source_id@) ==> r is Ok && final(self).ids().to_set()
                == old(self).ids().to_set().remove(source_id@) && final(self).ids().len() == old(
                self,
            ).ids().len() - 1,
    {
        let (pos, found) = self.locate(source_id);
        let ghost before = self.ids();
        if !found {
            proof {
                assert forall|k: int| 0 <= k < before.len() implies before[k] != source_id@ by {
                    if k < pos {
                        lemma_text_trichotomy(before[k], source_id@);
                    } else {
                        lemma_text_trichotomy(source_id@, before[k]);
                    }
                }
            }
            return Err(SourceError::NotFound);
        }
        let _ = self.sources.remove(pos);
        let ghost after = self.ids();
        assert(after =~= before.remove(pos as int));
        assert forall|i: int, j: int| 0 <= i < j < after.len() implies text_less(#[trigger] after[i], #[trigger] after[j]) by {
            if j < pos {
                assert(after[i] == before[i] && after[j] == before[j]);
            } else if i < pos {
                assert(after[i] == before[i] && after[j] == before[j + 1]);
            } else {
                assert(after[i] == before[i + 1] && after[j] == before[j + 1]);
            }
        }
        assert(after.to_set() =~= before.to_set().remove(source_id@)) by {
            assert forall|x: Seq<char>| after.to_set().contains(x) <==> before.to_set().remove(source_id@).contains(x) by {
                if after.contains(x) {
                    let k = choose|k: int| 0 <= k < after.len() && after[k] == x;
                    if k < pos {
                        assert(before[k] == x);
                        assert(text_less(before[k], before[pos as int]));
                        lemma_text_trichotomy(x, x);
                    } else {
                        assert(before[k + 1] == x);
                        assert(text_less(before[pos as int], before[k + 1]));
                        lemma_text_trichotomy(x, x);
                    }
                }
                if before.contains(x) && x != source_id@ {
                    let k = choose|k: int| 0 <= k < before.len() && before[k] == x;
                    if k < pos {
                        assert(after[k] == x);
                    } else {
                        assert(k != pos);
                        assert(after[k - 1] == x);
                    }
                }
            }
        }
        Ok(())
    }

    /// Whether a source with identifier `source_id` is registered.
    pub fn has_source(&self, source_id: &str) -> (r: bool)
        requires
            self.wf(),
        ensures
            r == self.ids().contains(source_id@),
    {
        let (pos, found) = self.locate(source_id);
        if !found {
            assert forall|k: int| 0 <= k < self.ids().len() implies self.ids()[k] != source_id@ by {
                if k < pos {
                    lemma_text_trichotomy(self.ids()[k], source_id@);
                } else {
                    lemma_text_trichotomy(source_id@, self.ids()[k]);
                }
            }
        } else {
            assert(self.ids()[pos as int] == source_id@);
        }
        found
    }

    /// The registered sources, in increasing order of identifier.
    pub fn list_sources(&self) -> (r: Vec<SourceInfo>)
        ensures
            r@.map_values(|x: SourceInfo| x.id@) == self.ids(),
            r@.map_values(|x: SourceInfo| x.name@) == self.names(),
    {
        let mut out: Vec<SourceInfo> = Vec::new();
        let mut i: usize = 0;
        while i < self.sources.len()
            invariant
                i <= self.sources@.len(),
                out@.len() == i,
                forall|k: int| 0 <= k < i ==> (#[trigger] out@[k]).id@ == self.sources@[k].id@,
                forall|k: int| 0 <= k < i ==> (#[trigger] out@[k]).name@ == self.sources@[k].name@,
            decreases self.sources@.len() - i,
        {
            let e = &self.sources[i];
            out.push(SourceInfo { id: e.id.clone(), name: e.name.clone(), is_connected: e.source.is_connected() });
            i += 1;
        }
        assert(out@.map_values(|x: SourceInfo| x.id@) =~= self.ids());
        assert(out@.map_values(|x: SourceInfo| x.name@) =~= self.names());
        out
    }

    /// The registered source with identifier `source_id`, when it is connected.
    pub fn connected_source(&self, source_id: &str) -> (r: Result<&S, SourceError>)
        requires
            self.wf(),
        ensures
            !self.ids().contains(source_id@) ==> r == Err::<&S, SourceError>(SourceError::NotFound),

            self.ids().contains(source_id@) ==> (r is Ok || r == Err::<&S, SourceError>(SourceError::NotConnected)),
    {
        let (pos, found) = self.locate(source_id);
        if !found {
            assert forall|k: int| 0 <= k < self.ids().len() implies self.ids()[k] != source_id@ by {
                if k < pos {
                    lemma_text_trichotomy(self.ids()[k], source_id@);
                } else {
                    lemma_text_trichotomy(source_id@, self.ids()[k]);
                }
            }
            return Err(SourceError::NotFound);
        }
        let e = &self.sources[pos];
        if !e.source.is_connected() {
            return Err(SourceError::NotConnected);
        }
        Ok(&e.source)
    }

    /// How many sources are registered.
    pub fn count(&self) -> (r: usize)
        ensures
            r == self.ids().len(),
    {
        self.sources.len()
    }

    /// Whether no source is registered.
    pub fn is_empty(&self) -> (r: bool)
        ensures
            r == (self.ids().len() == 0),
    {
        self.sources.len() == 0
    }
}

} // verus!
