//! The local mirror of the user's records, refreshed by merging sync responses.
use vstd::prelude::*;
use std::collections::HashMap;
use vstd::std_specs::iter::IteratorSpec;
use crate::client::Client;
use crate::error::Error;
use crate::protocol::{ResourceType, SyncResponse};
use crate::resource::{Collaborator, Item, Label, Project, Record, User, ID};

verus! {

broadcast use vstd::std_specs::hash::group_hash_axioms;

/// The records of one kind after a list of them has been stored by ID, in
/// order: a later record replaces an earlier one with the same ID.
pub open spec fn merged<T: Record>(m: Map<ID, T>, xs: Seq<T>) -> Map<ID, T>
    decreases xs.len(),
{
    if xs.len() == 0 {
        m
    } else {
        merged(m, xs.drop_last()).insert(xs.last().key_of(), xs.last())
    }
}

/// The records of one kind after a sync response's list for that kind, if
/// it holds one, has been stored.
pub open spec fn merged_kind<T: Record>(m: Map<ID, T>, xs: Option<Vec<T>>) -> Map<ID, T> {
    match xs {
        Some(v) => merged(m, v@),
        None => m,
    }
}

/// What a cache holds, as values.
pub struct CacheView {
    pub token: Option<Seq<char>>,
    pub sync_token: Option<Seq<char>>,
    pub user: User,
    pub labels: Map<ID, Label>,
    pub projects: Map<ID, Project>,
    pub items: Map<ID, Item>,
    pub collaborators: Map<ID, Collaborator>,
}

/// What a cache holds after a sync response has been merged into it.
pub open spec fn after_sync(c: CacheView, r: SyncResponse) -> CacheView {
    CacheView {
        token: c.token,
        sync_token: Some(r.sync_token@),
        user: match r.user {
            Some(u) => u,
            None => c.user,
        },
        labels: merged_kind(c.labels, r.labels),
        projects: merged_kind(c.projects, r.projects),
        items: merged_kind(c.items, r.items),
        collaborators: merged_kind(c.collaborators, r.collaborators),
    }
}

/// Every record is kept under its own ID.
pub open spec fn keyed_by_id<T: Record>(m: Map<ID, T>) -> bool {
    forall|k: ID| #[trigger] m.contains_key(k) ==> m[k].key_of() == k
}

/// The local mirror of the user's projects, items, labels and collaborators.
#[derive(Debug, Default)]
pub struct Cache {
    /// The user's API token.
    pub token: Option<String>,
    /// The token that the last sync returned; `None` before the first sync.
    pub sync_token: Option<String>,
    pub user: User,
    pub labels: HashMap<ID, Label>,
    pub projects: HashMap<ID, Project>,
    pub items: HashMap<ID, Item>,
    pub collaborators: HashMap<ID, Collaborator>,
}

impl View for Cache {
    type V = CacheView;

    open spec fn view(&self) -> CacheView {
        CacheView {
            token: match self.token {
                Some(t) => Some(t@),
                None => None,
            },
            sync_token: match self.sync_token {
                Some(t) => Some(t@),
                None => None,
            },
            user: self.user,
            labels: self.labels@,
            projects: self.projects@,
            items: self.items@,
            collaborators: self.collaborators@,
        }
    }
}

/// Stores each record of a list under its ID, in order.
fn merge_records<T: Record>(m: &mut HashMap<ID, T>, xs: Vec<T>)
    ensures
        final(m)@ == merged(old(m)@, xs@),
{
    let ghost start = m@;
    for x in it: xs
        invariant
            it.seq() == xs@,
            m@ == merged(start, xs@.take(it.index() as int)),
    {
        proof {
            let i = it.index() as int;
            assert(xs@.take(i + 1).drop_last() =~= xs@.take(i));
        }
        let k = x.key();
        m.insert(k, x);
    }
    assert(xs@.take(xs@.len() as int) =~= xs@);
}

impl Cache {
    /// Whether every record is kept under its own ID.
    pub open spec fn wf(&self) -> bool {
        &&& keyed_by_id(self.labels@)
        &&& keyed_by_id(self.projects@)
        &&& keyed_by_id(self.items@)
        &&& keyed_by_id(self.collaborators@)
    }

    /// An empty cache that has never been synced.
    pub fn new() -> (r: Cache)
        ensures
            r.wf(),
            r@.token is None,
            r@.sync_token is None,
            r.user.is_default(),
            r@.labels.is_empty(),
            r@.projects.is_empty(),
            r@.items.is_empty(),
            r@.collaborators.is_empty(),
    {
        Cache {
            token: None,
            sync_token: None,
            user: User::default(),
            labels: HashMap::new(),
            projects: HashMap::new(),
            items: HashMap::new(),
            collaborators: HashMap::new(),
        }
    }

    /// A client that makes requests with the cached API token, or
    /// `Error::InvalidApiToken` when no token is cached.
    pub fn add_client(&self) -> (r: Result<Client, Error>)
        ensures
            self.token matches Some(t) ==> (r matches Ok(c) && c.token_view() == t@),
            self.token is None ==> (r matches Err(Error::InvalidApiToken(s)) && s@ == "<None>"@),
    {
        match &self.token {
            Some(v) => Ok(Client::new(v.as_str())),
            None => Err(Error::InvalidApiToken(String::from_str("<None>"))),
        }
    }

    /// The kinds of record that the cache mirrors, which a sync asks for.
    pub fn mirrored_kinds() -> (r: Vec<ResourceType>)
        ensures
            r@ == seq![
                ResourceType::Projects,
                ResourceType::Items,
                ResourceType::User,
                ResourceType::Collaborators,
                ResourceType::Labels,
            ],
    {
        vec![
            ResourceType::Projects,
            ResourceType::Items,
            ResourceType::User,
            ResourceType::Collaborators,
            ResourceType::Labels,
        ]
    }

    /// The sync token to send: the last one received, or `*` for a full sync.
    pub fn request_token(&self) -> (r: String)
        ensures
            r@ == (match self.sync_token {
                Some(t) => t@,
                None => "*"@,
            }),
    {
        match &self.sync_token {
            Some(t) => t.clone(),
            None => String::from_str("*"),
        }
    }

    /// Merges a sync response: each record it holds is stored under its ID,
    /// replacing what was there; a kind that it leaves out is kept as it was;
    /// a user record replaces the cached one; its sync token replaces the
    /// stored one.
    pub fn sync(&mut self, resp: SyncResponse)
        requires
            old(self).wf(),
        ensures
            final(self).wf(),
            final(self)@ == after_sync(old(self)@, resp),
    {
        let ghost r = resp;
        let SyncResponse { sync_token, user, projects, items, collaborators, labels, .. } = resp;
        if let Some(u) = user {
            self.user = u;
        }
        if let Some(v) = projects {
            merge_records(&mut self.projects, v);
            proof { lemma_merged_keyed(old(self).projects@, v@); }
        }
        if let Some(v) = items {
            merge_records(&mut self.items, v);
            proof { lemma_merged_keyed(old(self).items@, v@); }
        }
        if let Some(v) = collaborators {
            merge_records(&mut self.collaborators, v);
            proof { lemma_merged_keyed(old(self).collaborators@, v@); }
        }
        if let Some(v) = labels {
            merge_records(&mut self.labels, v);
            proof { lemma_merged_keyed(old(self).labels@, v@); }
        }
        self.sync_token = Some(sync_token);
    }
}

/// Merging keeps every record under its own ID.
pub proof fn lemma_merged_keyed<T: Record>(m: Map<ID, T>, xs: Seq<T>)
    requires
        keyed_by_id(m),
    ensures
        keyed_by_id(merged(m, xs)),
    decreases xs.len(),
{
    if xs.len() > 0 {
        lemma_merged_keyed(m, xs.drop_last());
    }
}

/// Merging a list overrides the old records with those that the list alone
/// would give.
pub proof fn lemma_merged_override<T: Record>(m: Map<ID, T>, xs: Seq<T>)
    ensures
        merged(m, xs) == m.union_prefer_right(merged(Map::empty(), xs)),
    decreases xs.len(),
{
    if xs.len() > 0 {
        lemma_merged_override(m, xs.drop_last());
        assert(merged(m, xs) =~= m.union_prefer_right(merged(Map::empty(), xs)));
    } else {
        assert(merged(m, xs) =~= m.union_prefer_right(merged(Map::empty(), xs)));
    }
}

/// Merging the same list twice gives what merging it once gives.
pub proof fn lemma_merged_idempotent<T: Record>(m: Map<ID, T>, xs: Seq<T>)
    ensures
        merged(merged(m, xs), xs) == merged(m, xs),
{
    lemma_merged_override(m, xs);
    lemma_merged_override(merged(m, xs), xs);
    assert(merged(merged(m, xs), xs) =~= merged(m, xs));
}

/// Applying the same sync response to a cache twice leaves it as applying
/// it once does.
pub proof fn lemma_sync_idempotent(c: CacheView, r: SyncResponse)
    ensures
        after_sync(after_sync(c, r), r) == after_sync(c, r),
{
    if let Some(v) = r.labels {
        lemma_merged_idempotent(c.labels, v@);
    }
    if let Some(v) = r.projects {
        lemma_merged_idempotent(c.projects, v@);
    }
    if let Some(v) = r.items {
        lemma_merged_idempotent(c.items, v@);
    }
    if let Some(v) = r.collaborators {
        lemma_merged_idempotent(c.collaborators, v@);
    }
}

/// A kind that a sync response leaves out is kept as it was, while the sync
/// token always becomes the response's, whatever kinds it holds.
pub proof fn lemma_sync_per_kind(c: CacheView, r: SyncResponse)
    ensures
        after_sync(c, r).sync_token == Some(r.sync_token@),
        r.labels is None ==> after_sync(c, r).labels == c.labels,
        r.projects is None ==> after_sync(c, r).projects == c.projects,
        r.items is None ==> after_sync(c, r).items == c.items,
        r.collaborators is None ==> after_sync(c, r).collaborators == c.collaborators,
        r.user is None ==> after_sync(c, r).user == c.user,
{
}

/// The segments of a project path: the text between slashes, with empty
/// segments (a leading, trailing or doubled slash) left out. Scans `s` from
/// `i`, with `cur` the segment read so far and `acc` the segments before it.
pub open spec fn segments_from(s: Seq<char>, i: int, cur: Seq<char>, acc: Seq<Seq<char>>) -> Seq<
    Seq<char>,
>
    decreases s.len() - i,
{
    if i >= s.len() {
        if cur.len() > 0 {
            acc.push(cur)
        } else {
            acc
        }
    } else if s[i] == '/' {
        segments_from(
            s,
            i + 1,
            Seq::empty(),
            if cur.len() > 0 {
                acc.push(cur)
            } else {
                acc
            },
        )
    } else {
        segments_from(s, i + 1, cur.push(s[i]), acc)
    }
}

/// The characters of each string of a list.
pub open spec fn texts(v: Seq<String>) -> Seq<Seq<char>> {
    v.map_values(|x: String| x@)
}

/// The names along a slash-separated project path.
pub open spec fn path_segments(s: Seq<char>) -> Seq<Seq<char>> {
    segments_from(s, 0, Seq::empty(), Seq::empty())
}

/// Splits a project path at its slashes, leaving out empty segments.
pub fn path_names(path: &str) -> (r: Vec<String>)
    ensures
        texts(r@) == path_segments(path@),
{
    let n = path.unicode_len();
    let mut acc: Vec<String> = Vec::new();
    let mut start: usize = 0;
    let mut i: usize = 0;
    assert(path@.subrange(0, 0) =~= Seq::<char>::empty());
    assert(texts(acc@) =~= Seq::<Seq<char>>::empty());
    while i < n
        invariant
            n == path@.len(),
            start <= i <= n,
            segments_from(path@, i as int, path@.subrange(start as int, i as int), texts(acc@))
                == path_segments(path@),
        decreases n - i,
    {
        let ghost cur = path@.subrange(start as int, i as int);
        let ghost before = texts(acc@);
        let c = path.get_char(i);
        if c == '/' {
            assert(segments_from(path@, i as int, cur, before) == segments_from(
                path@,
                i + 1,
                Seq::empty(),
                if cur.len() > 0 { before.push(cur) } else { before },
            ));
            if start < i {
                let seg = path.substring_char(start, i);
                acc.push(seg.to_string());
                assert(texts(acc@) =~= before.push(cur));
            }
            i = i + 1;
            start = i;
            assert(path@.subrange(start as int, i as int) =~= Seq::<char>::empty());
        } else {
            assert(segments_from(path@, i as int, cur, before) == segments_from(path@, i + 1, cur.push(c), before));
            assert(cur.push(c) =~= path@.subrange(start as int, i as int + 1));
            i = i + 1;
        }
    }
    let ghost cur = path@.subrange(start as int, n as int);
    let ghost before = texts(acc@);
    assert(segments_from(path@, n as int, cur, before) == if cur.len() > 0 { before.push(cur) } else { before });
    if start < n {
        let seg = path.substring_char(start, n);
        acc.push(seg.to_string());
        assert(texts(acc@) =~= before.push(cur));
    }
    acc
}

/// Splits a project path into its last name and the names of the path to
/// its parent; a path with no names gives an empty name and no parent names.
pub fn split_path(path: &str) -> (r: (String, Vec<String>))
    ensures
        path_segments(path@).len() == 0 ==> r.0@.len() == 0 && r.1@.len() == 0,
        path_segments(path@).len() > 0 ==> r.0@ == path_segments(path@).last() && texts(r.1@)
            == path_segments(path@).drop_last(),
{
    let mut names = path_names(path);
    let ghost all = names@;
    match names.pop() {
        Some(last) => {
            assert(texts(names@) =~= texts(all).drop_last());
            (last, names)
        },
        None => (String::new(), names),
    }
}

/// Whether project `a` comes no later than `b` in the project list: by
/// order, then by ID.
pub open spec fn listed_no_later(a: Project, b: Project) -> bool {
    a.item_order < b.item_order || (a.item_order == b.item_order && a.id <= b.id)
}

/// Whether a project can stand for a path segment: its name is the segment,
/// its indent is the depth, and it comes no earlier than the project matched
/// for the segment before.
pub open spec fn fits(p: Project, name: Seq<char>, depth: int, after: Option<Project>) -> bool {
    &&& p.name@ == name
    &&& p.indent as int == depth
    &&& match after {
        Some(q) => listed_no_later(q, p),
        None => true,
    }
}

/// Whether `p` is the first project in the list that fits a segment.
pub open spec fn first_fit(
    vals: Set<Project>,
    p: Project,
    name: Seq<char>,
    depth: int,
    after: Option<Project>,
) -> bool {
    &&& vals.contains(p)
    &&& fits(p, name, depth, after)
    &&& forall|q: Project| #[trigger] vals.contains(q) && fits(q, name, depth, after) ==> listed_no_later(p, q)
}

/// The first project in the list that fits a segment, if any does.
pub open spec fn find_fit(vals: Set<Project>, name: Seq<char>, depth: int, after: Option<Project>) -> Option<
    Project,
> {
    if exists|p: Project| first_fit(vals, p, name, depth, after) {
        Some(choose|p: Project| first_fit(vals, p, name, depth, after))
    } else {
        None
    }
}

/// The project matched for the first `n` segments of a path, walking one
/// level deeper with each segment.
pub open spec fn walk(vals: Set<Project>, segs: Seq<Seq<char>>, n: nat) -> Option<Project>
    decreases n,
{
    if n <= 1 {
        find_fit(vals, segs[0], 1, None)
    } else {
        match walk(vals, segs, (n - 1) as nat) {
            Some(p) => find_fit(vals, segs[n - 1], n as int, Some(p)),
            None => None,
        }
    }
}

/// The project that a path names, or `None` when a segment has no match;
/// an empty path names no project.
pub open spec fn resolve(projects: Map<ID, Project>, segs: Seq<Seq<char>>) -> Option<Project> {
    if segs.len() == 0 {
        None
    } else {
        walk(projects.values(), segs, segs.len())
    }
}

/// Two projects of a map keyed by ID that stand at the same place in the list are one.
proof fn lemma_same_place(projects: Map<ID, Project>, p: Project, q: Project)
    requires
        keyed_by_id(projects),
        projects.values().contains(p),
        projects.values().contains(q),
        listed_no_later(p, q),
        listed_no_later(q, p),
    ensures
        p == q,
{
    // The IDs under which the two are kept, which are their own IDs.
    let kp = choose|k: ID| #[trigger] projects.contains_key(k) && projects[k] == p;
    let kq = choose|k: ID| #[trigger] projects.contains_key(k) && projects[k] == q;
}

/// The projects that a list of references points to.
pub open spec fn pointed(vals: Seq<&Project>) -> Set<Project> {
    derefs(vals).to_set()
}

/// The projects that each reference of a list points to.
pub open spec fn derefs(vals: Seq<&Project>) -> Seq<Project> {
    vals.map_values(|x: &Project| *x)
}

/// The project that an optional reference points to.
pub open spec fn pointed_opt(p: Option<&Project>) -> Option<Project> {
    match p {
        Some(q) => Some(*q),
        None => None,
    }
}

/// The first project of `vals` that fits a segment.
fn first_fitting<'a>(
    vals: &Vec<&'a Project>,
    name: &str,
    depth: usize,
    after: Option<&'a Project>,
) -> (r: Option<&'a Project>)
    ensures
        match r {
            Some(p) => first_fit(pointed(vals@), *p, name@, depth as int, pointed_opt(after)),
            None => !exists|p: Project|
                #[trigger] pointed(vals@).contains(p) && fits(p, name@, depth as int, pointed_opt(after)),
        },
{
    let ghost seq = derefs(vals@);
    let ghost aft = pointed_opt(after);
    let mut best: Option<&'a Project> = None;
    let mut i: usize = 0;
    while i < vals.len()
        invariant
            i <= vals.len(),
            seq == derefs(vals@),
            aft == pointed_opt(after),
            match best {
                Some(p) => seq.subrange(0, i as int).contains(*p) && fits(*p, name@, depth as int, aft)
                    && forall|j: int|
                    0 <= j < i && fits(#[trigger] seq[j], name@, depth as int, aft) ==> listed_no_later(
                        *p,
                        seq[j],
                    ),
                None => forall|j: int| 0 <= j < i ==> !fits(#[trigger] seq[j], name@, depth as int, aft),
            },
        decreases vals.len() - i,
    {
        let p: &'a Project = vals[i];
        let ok = crate::text::same_text(p.name.as_str(), name) && p.indent as usize == depth && match after {
            Some(q) => q.item_order < p.item_order || (q.item_order == p.item_order && q.id <= p.id),
            None => true,
        };
        if ok {
            let better = match best {
                Some(b) => p.item_order < b.item_order || (p.item_order == b.item_order && p.id < b.id),
                None => true,
            };
            if better {
                proof {
                    assert(seq.subrange(0, i as int + 1)[i as int] == *p);
                    assert forall|j: int| 0 <= j < i + 1 && fits(#[trigger] seq[j], name@, depth as int, aft) implies listed_no_later(*p, seq[j]) by {
                        if j < i {
                            let b = *best.unwrap();
                            assert(listed_no_later(b, seq[j]));
                        }
                    }
                }
                best = Some(p);
            }
        }
        proof {
            assert(seq[i as int] == *p);
            assert(seq.subrange(0, i as int + 1) =~= seq.subrange(0, i as int).push(*p));
            if best is Some {
                let b = *best.unwrap();
                assert(seq.subrange(0, i as int).contains(b) ==> seq.subrange(0, i as int + 1).contains(b));
            }
        }
        i = i + 1;
    }
    proof {
        assert(seq.subrange(0, i as int) =~= seq);
        match best {
            Some(p) => {
                assert forall|q: Project| #[trigger] seq.to_set().contains(q) && fits(q, name@, depth as int, aft) implies listed_no_later(*p, q) by {
                    let j = choose|j: int| 0 <= j < seq.len() && seq[j] == q;
                }
            },
            None => {
                assert forall|q: Project| #[trigger] seq.to_set().contains(q) implies !fits(q, name@, depth as int, aft) by {
                    let j = choose|j: int| 0 <= j < seq.len() && seq[j] == q;
                }
            },
        }
    }
    best
}

impl Cache {
    /// The project that a slash-separated path of project names leads to.
    ///
    /// Projects are listed by order, then ID. The first segment names the
    /// first listed project with that name and indent 1; each later segment
    /// names the first project with that name, one level deeper, that is
    /// listed no earlier than the project of the segment before. The result
    /// is `None` when a segment has no such project, and for a path with no
    /// segments.
    pub fn get_project(&self, path: &str) -> (r: Option<&Project>)
        requires
            self.wf(),
        ensures
            match r {
                Some(p) => resolve(self.projects@, path_segments(path@)) == Some(*p),
                None => resolve(self.projects@, path_segments(path@)) is None,
            },
    {
        let segs = path_names(path);
        self.find_project(&segs)
    }

    /// The project that a path, given as its names, leads to; see `get_project`.
    pub fn find_project(&self, segs: &Vec<String>) -> (r: Option<&Project>)
        requires
            self.wf(),
        ensures
            match r {
                Some(p) => resolve(self.projects@, texts(segs@)) == Some(*p),
                None => resolve(self.projects@, texts(segs@)) is None,
            },
    {
        let ghost names = texts(segs@);
        if segs.len() == 0 {
            return None;
        }
        let ghost pairs = self.projects.values().remaining();
        let mut vals: Vec<&Project> = Vec::new();
        for p in it: self.projects.values()
            invariant
                it.seq() == pairs,
                derefs(vals@) == pairs.take(it.index() as int).unref(),
        {
            vals.push(p);
            proof {
                assert(pairs.take(it.index() as int + 1).unref() =~= pairs.take(it.index() as int).unref().push(*p));
            }
        }
        assert(pairs.take(pairs.len() as int) =~= pairs);
        let ghost set = pointed(vals@);
        assert(set == self.projects@.values());
        let mut cur: Option<&Project> = None;
        let mut i: usize = 0;
        while i < segs.len()
            invariant
                0 <= i <= segs.len(),
                names == texts(segs@),
                set == pointed(vals@),
                set == self.projects@.values(),
                self.wf(),
                i == 0 ==> cur is None,
                i > 0 ==> match cur {
                    Some(p) => walk(set, names, i as nat) == Some(*p),
                    None => false,
                },
            decreases segs.len() - i,
        {
            let found = first_fitting(&vals, segs[i].as_str(), i + 1, cur);
            match found {
                None => {
                    proof {
                        if i > 0 {
                            assert(walk(set, names, (i + 1) as nat) == find_fit(set, names[i as int], i + 1, Some(*cur.unwrap())));
                        }
                        assert(!exists|p: Project| #[trigger] first_fit(set, p, names[i as int], i + 1, pointed_opt(cur)));
                        assert(find_fit(set, names[i as int], i + 1, pointed_opt(cur)) is None);
                        assert(walk(set, names, (i + 1) as nat) is None);
                        assert(names.len() == segs@.len());
                        lemma_walk_stops(set, names, (i + 1) as nat, names.len());
                    }
                    return None;
                },
                Some(p) => {
                    proof {
                        let aft = pointed_opt(cur);
                        let c = choose|c: Project| #[trigger] first_fit(set, c, names[i as int], i + 1, aft);
                        lemma_same_place(self.projects@, *p, c);
                    }
                    cur = Some(p);
                },
            }
            i = i + 1;
        }
        cur
    }
}

/// Once a walk finds no project, it finds none for any longer prefix.
proof fn lemma_walk_stops(vals: Set<Project>, segs: Seq<Seq<char>>, n: nat, m: nat)
    requires
        1 <= n <= m,
        walk(vals, segs, n) is None,
    ensures
        walk(vals, segs, m) is None,
    decreases m - n,
{
    if n < m {
        lemma_walk_stops(vals, segs, n, (m - 1) as nat);
    }
}

} // verus!
