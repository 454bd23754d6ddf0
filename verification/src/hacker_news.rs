//! The external item-graph domain adapter's resolution logic: its item and
//! vertex unions, its starting-edge plans (front page, top, latest, a named
//! user), its property tables, and its traversal edges. Every remote fetch
//! happens outside this crate; this module decides what to fetch and turns
//! what came back into vertices, treating a missing or failed item as
//! absent rather than aborting the traversal.

use vstd::prelude::*;
use vstd::string::*;
use crate::text::{dec_digits, str_eq, u64_to_string};
use crate::value::{Value, ValueModel};

verus! {

/// A story of the item graph.
pub struct Story {
    pub id: u32,
    pub descendants: u32,
    pub by: String,
    pub kids: Option<Vec<u32>>,
    pub score: u32,
    pub title: String,
    pub url: Option<String>,
    pub text: Option<String>,
    pub time: u64,
}

/// A comment of the item graph.
pub struct Comment {
    pub id: u32,
    pub by: String,
    pub kids: Option<Vec<u32>>,
    pub parent: u32,
    pub text: String,
    pub time: u64,
}

/// A job of the item graph.
pub struct Job {
    pub id: u32,
    pub score: u32,
    pub text: Option<String>,
    pub time: u64,
    pub title: String,
    pub url: Option<String>,
}

/// A poll of the item graph.
pub struct Poll {
    pub id: u32,
    pub by: String,
    pub descendants: u32,
    pub kids: Option<Vec<u32>>,
    pub parts: Option<Vec<u32>>,
    pub score: u32,
    pub title: String,
    pub text: Option<String>,
    pub time: u64,
}

/// One option of a poll.
pub struct PollOption {
    pub id: u32,
    pub by: String,
    pub poll: u32,
    pub score: u32,
    pub text: Option<String>,
    pub time: u64,
}

/// A user profile of the item graph.
pub struct User {
    pub id: String,
    pub created: u64,
    pub karma: u32,
    pub delay: Option<u32>,
    pub about: Option<String>,
    pub submitted: Vec<u32>,
}

/// An item fetched from the graph: a story, a comment, a job, a poll or a
/// poll option.
pub enum Item {
    Story(Story),
    Comment(Comment),
    Job(Job),
    Poll(Poll),
    Pollopt(PollOption),
}

/// A vertex of the item-graph domain.
pub enum Vertex {
    Comment(Comment),
    Job(Job),
    Poll(Poll),
    PollOption(PollOption),
    Story(Story),
    User(User),
}

/// The vertex an item wraps into.
pub open spec fn vertex_of(item: Item) -> Vertex {
    match item {
        Item::Story(x) => Vertex::Story(x),
        Item::Comment(x) => Vertex::Comment(x),
        Item::Job(x) => Vertex::Job(x),
        Item::Poll(x) => Vertex::Poll(x),
        Item::Pollopt(x) => Vertex::PollOption(x),
    }
}

/// The name of a vertex's kind, as the schema declares it.
pub open spec fn typename_spec(v: Vertex) -> Seq<char> {
    match v {
        Vertex::Comment(_) => "Comment"@,
        Vertex::Job(_) => "Job"@,
        Vertex::Poll(_) => "Poll"@,
        Vertex::PollOption(_) => "PollOption"@,
        Vertex::Story(_) => "Story"@,
        Vertex::User(_) => "User"@,
    }
}

impl Vertex {
    /// Wrap a fetched item into its vertex.
    pub fn from_item(item: Item) -> (v: Vertex)
        ensures
            v == vertex_of(item),
    {
        match item {
            Item::Story(x) => Vertex::Story(x),
            Item::Comment(x) => Vertex::Comment(x),
            Item::Job(x) => Vertex::Job(x),
            Item::Poll(x) => Vertex::Poll(x),
            Item::Pollopt(x) => Vertex::PollOption(x),
        }
    }

    /// Wrap a fetched comment into its vertex.
    pub fn from_comment(comment: Comment) -> (v: Vertex)
        ensures
            v == Vertex::Comment(comment),
    {
        Vertex::Comment(comment)
    }

    /// Wrap a fetched user profile into its vertex.
    pub fn from_user(user: User) -> (v: Vertex)
        ensures
            v == Vertex::User(user),
    {
        Vertex::User(user)
    }

    /// The name of this vertex's kind.
    pub fn typename(&self) -> (r: &'static str)
        ensures
            r@ == typename_spec(*self),
    {
        match self {
            Vertex::Comment(_) => "Comment",
            Vertex::Job(_) => "Job",
            Vertex::Poll(_) => "Poll",
            Vertex::PollOption(_) => "PollOption",
            Vertex::Story(_) => "Story",
            Vertex::User(_) => "User",
        }
    }
}

/// The vertices a sequence of fetch results yields: each fetched item in
/// order, with a missing or failed item skipped.
pub open spec fn item_vertices(fetched: Seq<Option<Item>>) -> Seq<Vertex>
    decreases fetched.len(),
{
    if fetched.len() == 0 {
        Seq::empty()
    } else {
        let prev = item_vertices(fetched.drop_last());
        match fetched.last() {
            Some(item) => prev.push(vertex_of(item)),
            None => prev,
        }
    }
}

/// Turn per-item fetch results into vertices, in order, skipping what could
/// not be fetched.
pub fn items_to_vertices(fetched: Vec<Option<Item>>) -> (vertices: Vec<Vertex>)
    ensures
        vertices@ == item_vertices(fetched@),
{
    let ghost fv = fetched@;
    let mut fetched = fetched;
    let mut vertices: Vec<Vertex> = Vec::new();
    let ghost done: int = 0;
    #[verifier::loop_isolation(false)]
    while fetched.len() > 0
        invariant
            0 <= done <= fv.len(),
            fetched@ == fv.skip(done),
            vertices@ == item_vertices(fv.take(done)),
        decreases fetched.len(),
    {
        let next = fetched.remove(0);
        proof {
            assert(fv.skip(done).remove(0) =~= fv.skip(done + 1));
            assert(fv[done] == fv.skip(done)[0]);
            assert(fv.take(done + 1).drop_last() =~= fv.take(done));
            assert(fv.take(done + 1).last() == fv[done]);
        }
        match next {
            Some(item) => {
                vertices.push(Vertex::from_item(item));
            },
            None => {},
        }
        proof {
            done = done + 1;
        }
    }
    proof {
        assert(fv.take(fv.len() as int) =~= fv);
    }
    vertices
}

/// Turn the result of one user lookup into vertices: a found profile is the
/// one vertex, a missing or failed lookup yields none.
pub fn user_to_vertices(fetched: Option<User>) -> (vertices: Vec<Vertex>)
    ensures
        fetched matches Some(user) ==> vertices@ =~= seq![Vertex::User(user)],
        fetched is None ==> vertices@ =~= Seq::<Vertex>::empty(),
{
    let mut vertices: Vec<Vertex> = Vec::new();
    match fetched {
        Some(user) => {
            vertices.push(Vertex::from_user(user));
        },
        None => {},
    }
    vertices
}

/// How many stories the front page shows.
pub open spec fn front_page_size() -> u64 {
    30
}

/// Mathematical model of a [`FetchPlan`].
pub enum FetchPlanModel {
    TopStories { max: Option<u64> },
    NewStories { max: Option<u64> },
    UserByName { name: Seq<char> },
}

/// What a starting edge asks the remote service for: the top stories, the
/// newest stories (each up to an optional bound), or one user by name.
pub enum FetchPlan {
    TopStories { max: Option<u64> },
    NewStories { max: Option<u64> },
    UserByName { name: String },
}

impl DeepView for FetchPlan {
    type V = FetchPlanModel;

    open spec fn deep_view(&self) -> FetchPlanModel {
        match self {
            FetchPlan::TopStories { max } => FetchPlanModel::TopStories { max: *max },
            FetchPlan::NewStories { max } => FetchPlanModel::NewStories { max: *max },
            FetchPlan::UserByName { name } => FetchPlanModel::UserByName { name: name@ },
        }
    }
}

/// The first value bound to the given argument name.
pub open spec fn lookup_arg(args: Seq<(Seq<char>, ValueModel)>, key: Seq<char>) -> Option<
    ValueModel,
>
    decreases args.len(),
{
    if args.len() == 0 {
        None
    } else if args[0].0 == key {
        Some(args[0].1)
    } else {
        lookup_arg(args.drop_first(), key)
    }
}

/// Looking an argument up past a prefix without it looks it up in the rest.
proof fn lemma_lookup_arg_skip(args: Seq<(Seq<char>, ValueModel)>, key: Seq<char>, i: int)
    requires
        0 <= i <= args.len(),
        forall|k: int| 0 <= k < i ==> (#[trigger] args[k]).0 != key,
    ensures
        lookup_arg(args, key) == lookup_arg(args.skip(i), key),
    decreases i,
{
    if i == 0 {
        assert(args.skip(0) =~= args);
    } else {
        assert(args.drop_first() =~= args.skip(1));
        assert(forall|k: int| 0 <= k < i - 1 ==> (#[trigger] args.skip(1)[k]).0 == args[k + 1].0);
        lemma_lookup_arg_skip(args.skip(1), key, i - 1);
        assert(args.skip(1).skip(i - 1) =~= args.skip(i));
    }
}

/// Find the first value bound to the given argument name.
pub fn arg_lookup<'a>(args: &'a Vec<(String, Value)>, key: &str) -> (r: Option<&'a Value>)
    ensures
        match r {
            Some(v) => lookup_arg(args.deep_view(), key@) == Some(v.deep_view()),
            None => lookup_arg(args.deep_view(), key@) is None,
        },
{
    let ghost av = args.deep_view();
    let mut i: usize = 0;
    #[verifier::loop_isolation(false)]
    while i < args.len()
        invariant
            i <= args.len(),
            forall|k: int| 0 <= k < i ==> (#[trigger] av[k]).0 != key@,
        decreases args.len() - i,
    {
        let pair = &args[i];
        proof {
            assert(av[i as int] == args@[i as int].deep_view());
        }
        if str_eq(pair.0.as_str(), key) {
            proof {
                lemma_lookup_arg_skip(av, key@, i as int);
                assert(av.skip(i as int)[0] == av[i as int]);
            }
            return Some(&pair.1);
        }
        i = i + 1;
    }
    proof {
        lemma_lookup_arg_skip(av, key@, args@.len() as int);
        assert(av.skip(args@.len() as int) =~= Seq::<(Seq<char>, ValueModel)>::empty());
    }
    None
}

/// A value read as a non-negative count: a non-negative integer of either
/// signedness; anything else (a null bound means no bound) reads as nothing.
pub open spec fn value_as_u64(v: ValueModel) -> Option<u64> {
    match v {
        ValueModel::Int64(x) => if x >= 0 {
            Some(x as u64)
        } else {
            None
        },
        ValueModel::Uint64(x) => Some(x),
        _ => None,
    }
}

/// Read a value as a non-negative count.
pub fn as_u64(v: &Value) -> (r: Option<u64>)
    ensures
        r == value_as_u64(v.deep_view()),
{
    match v {
        Value::Int64(x) => {
            if *x >= 0 {
                Some(*x as u64)
            } else {
                None
            }
        },
        Value::Uint64(x) => Some(*x),
        _ => None,
    }
}

/// The fetch plan of one starting edge. The front page asks for the top
/// stories at its fixed size; the top and latest listings ask for their
/// bound from the `max` parameter; the user lookup asks for the name bound
/// to `name`. The oracle only requests schema-declared edges with their
/// declared parameters.
pub open spec fn starting_plan(
    edge: Seq<char>,
    args: Seq<(Seq<char>, ValueModel)>,
) -> FetchPlanModel {
    if edge == "FrontPage"@ {
        FetchPlanModel::TopStories { max: Some(front_page_size()) }
    } else if edge == "Top"@ {
        FetchPlanModel::TopStories { max: value_as_u64(lookup_arg(args, "max"@).unwrap()) }
    } else if edge == "Latest"@ {
        FetchPlanModel::NewStories { max: value_as_u64(lookup_arg(args, "max"@).unwrap()) }
    } else {
        FetchPlanModel::UserByName { name: lookup_arg(args, "name"@).unwrap()->Str_0 }
    }
}

/// One isolated item-graph adapter: the names of the vertex kinds that
/// satisfy the schema's item interface.
pub struct HackerNewsAdapter {
    pub item_subtypes: Vec<String>,
}

/// The vertex kinds the schema declares as items: everything but a user
/// profile.
pub open spec fn item_subkind_names() -> Seq<Seq<char>> {
    seq!["Comment"@, "Job"@, "Poll"@, "PollOption"@, "Story"@]
}

impl HackerNewsAdapter {
    /// Build the adapter over the schema's closed set of item kinds.
    pub fn new() -> (a: HackerNewsAdapter)
        ensures
            a.item_subtypes.deep_view() == item_subkind_names(),
    {
        let mut item_subtypes: Vec<String> = Vec::new();
        item_subtypes.push(String::from_str("Comment"));
        item_subtypes.push(String::from_str("Job"));
        item_subtypes.push(String::from_str("Poll"));
        item_subtypes.push(String::from_str("PollOption"));
        item_subtypes.push(String::from_str("Story"));
        proof {
            assert(item_subtypes.deep_view() =~= item_subkind_names());
        }
        HackerNewsAdapter { item_subtypes }
    }

    /// Resolve the starting vertices' fetch plan for one starting edge; see
    /// `starting_plan`.
    pub fn resolve_starting_vertices(
        &self,
        edge_name: &str,
        parameters: &Vec<(String, Value)>,
    ) -> (plan: FetchPlan)
        requires
            edge_name@ == "FrontPage"@ || edge_name@ == "Top"@ || edge_name@ == "Latest"@
                || edge_name@ == "User"@,
            edge_name@ == "Top"@ || edge_name@ == "Latest"@ ==> lookup_arg(
                parameters.deep_view(),
                "max"@,
            ) is Some,
            edge_name@ == "User"@ ==> (lookup_arg(parameters.deep_view(), "name"@) matches Some(
                v,
            ) && v is Str),
        ensures
            plan.deep_view() == starting_plan(edge_name@, parameters.deep_view()),
    {
        if str_eq(edge_name, "FrontPage") {
            FetchPlan::TopStories { max: Some(30) }
        } else if str_eq(edge_name, "Top") {
            let max = match arg_lookup(parameters, "max") {
                Some(v) => as_u64(v),
                None => {
                    proof {
                        assert(false);
                    }
                    None
                },
            };
            FetchPlan::TopStories { max }
        } else if str_eq(edge_name, "Latest") {
            let max = match arg_lookup(parameters, "max") {
                Some(v) => as_u64(v),
                None => {
                    proof {
                        assert(false);
                    }
                    None
                },
            };
            FetchPlan::NewStories { max }
        } else {
            let name = match arg_lookup(parameters, "name") {
                Some(Value::Str(s)) => s.clone(),
                _ => {
                    proof {
                        assert(false);
                    }
                    String::new()
                },
            };
            FetchPlan::UserByName { name }
        }
    }

    /// Whether a vertex's dynamic kind satisfies the requested type: its own
    /// kind always does, and every item kind satisfies the item interface.
    pub fn resolve_coercion(&self, vertex: &Vertex, coerce_to_type: &str) -> (r: bool)
        ensures
            r == (typename_spec(*vertex) == coerce_to_type@ || (coerce_to_type@ == "Item"@
                && self.item_subtypes.deep_view().contains(typename_spec(*vertex)))),
    {
        let name = vertex.typename();
        if str_eq(name, coerce_to_type) {
            return true;
        }
        if !str_eq(coerce_to_type, "Item") {
            return false;
        }
        let ghost sv = self.item_subtypes.deep_view();
        let mut i: usize = 0;
        #[verifier::loop_isolation(false)]
        while i < self.item_subtypes.len()
            invariant
                i <= self.item_subtypes.len(),
                forall|k: int| 0 <= k < i ==> sv[k] != typename_spec(*vertex),
            decreases self.item_subtypes.len() - i,
        {
            proof {
                assert(sv[i as int] == self.item_subtypes@[i as int]@);
            }
            if str_eq(self.item_subtypes[i].as_str(), name) {
                proof {
                    assert(sv.contains(typename_spec(*vertex)));
                }
                return true;
            }
            i = i + 1;
        }
        proof {
            assert(!sv.contains(typename_spec(*vertex)));
        }
        false
    }
}

/// Keep at most the first `max` identifiers of a listing; no bound keeps
/// them all.
pub fn limit_ids(ids: Vec<u32>, max: Option<u64>) -> (out: Vec<u32>)
    ensures
        max is None ==> out@ == ids@,
        max matches Some(m) ==> out@ == ids@.take(
            if m <= ids@.len() {
                m as int
            } else {
                ids@.len() as int
            },
        ),
{
    match max {
        None => ids,
        Some(m) => {
            let mut out: Vec<u32> = Vec::new();
            let mut i: usize = 0;
            #[verifier::loop_isolation(false)]
            while i < ids.len() && (i as u64) < m
                invariant
                    i <= ids.len(),
                    i as u64 <= m,
                    out@ =~= ids@.take(i as int),
                decreases ids.len() - i,
            {
                out.push(ids[i]);
                i = i + 1;
            }
            proof {
                assert(out@ =~= ids@.take(
                    if m <= ids@.len() {
                        m as int
                    } else {
                        ids@.len() as int
                    },
                ));
            }
            out
        },
    }
}

/// Mathematical model of a [`NeighborFetch`].
pub enum NeighborFetchModel {
    User(Seq<char>),
    Item(u32),
    Items(Seq<u32>),
}

/// What a traversal edge asks the remote service for: one user by name, one
/// item, or a list of items, each then turned into neighbor vertices.
pub enum NeighborFetch {
    User(String),
    Item(u32),
    Items(Vec<u32>),
}

impl DeepView for NeighborFetch {
    type V = NeighborFetchModel;

    open spec fn deep_view(&self) -> NeighborFetchModel {
        match self {
            NeighborFetch::User(name) => NeighborFetchModel::User(name@),
            NeighborFetch::Item(id) => NeighborFetchModel::Item(*id),
            NeighborFetch::Items(ids) => NeighborFetchModel::Items(ids@),
        }
    }
}

/// The identifiers a kids list holds; an absent list holds none.
pub open spec fn kids_ids(kids: Option<Vec<u32>>) -> Seq<u32> {
    match kids {
        Some(ks) => ks@,
        None => Seq::empty(),
    }
}

fn clone_ids(ids: &Option<Vec<u32>>) -> (out: Vec<u32>)
    ensures
        out@ == kids_ids(*ids),
{
    match ids {
        Some(ks) => {
            let mut out: Vec<u32> = Vec::new();
            let mut i: usize = 0;
            #[verifier::loop_isolation(false)]
            while i < ks.len()
                invariant
                    i <= ks.len(),
                    out@ =~= ks@.take(i as int),
                decreases ks.len() - i,
            {
                out.push(ks[i]);
                i = i + 1;
            }
            proof {
                assert(out@ =~= ks@);
            }
            out
        },
        None => Vec::new(),
    }
}

/// What a comment's edges fetch: its author by name, its parent item, or
/// its replies.
pub open spec fn comment_edge_spec(c: Comment, edge: Seq<char>) -> NeighborFetchModel {
    if edge == "byUser"@ {
        NeighborFetchModel::User(c.by@)
    } else if edge == "parent"@ {
        NeighborFetchModel::Item(c.parent)
    } else {
        NeighborFetchModel::Items(kids_ids(c.kids))
    }
}

/// Resolve a traversal edge of a comment vertex to its fetch plan; the
/// oracle only asks for schema-declared edges.
pub fn resolve_comment_edge(comment: &Comment, edge_name: &str) -> (plan: NeighborFetch)
    requires
        edge_name@ == "byUser"@ || edge_name@ == "parent"@ || edge_name@ == "reply"@,
    ensures
        plan.deep_view() == comment_edge_spec(*comment, edge_name@),
{
    if str_eq(edge_name, "byUser") {
        NeighborFetch::User(comment.by.clone())
    } else if str_eq(edge_name, "parent") {
        NeighborFetch::Item(comment.parent)
    } else {
        NeighborFetch::Items(clone_ids(&comment.kids))
    }
}

/// What a story's edges fetch: its author by name or its comments.
pub open spec fn story_edge_spec(s: Story, edge: Seq<char>) -> NeighborFetchModel {
    if edge == "byUser"@ {
        NeighborFetchModel::User(s.by@)
    } else {
        NeighborFetchModel::Items(kids_ids(s.kids))
    }
}

/// Resolve a traversal edge of a story vertex to its fetch plan; the oracle
/// only asks for schema-declared edges.
pub fn resolve_story_edge(story: &Story, edge_name: &str) -> (plan: NeighborFetch)
    requires
        edge_name@ == "byUser"@ || edge_name@ == "comment"@,
    ensures
        plan.deep_view() == story_edge_spec(*story, edge_name@),
{
    if str_eq(edge_name, "byUser") {
        NeighborFetch::User(story.by.clone())
    } else {
        NeighborFetch::Items(clone_ids(&story.kids))
    }
}

/// What a user's one edge fetches: everything the user submitted.
pub open spec fn user_edge_spec(u: User, edge: Seq<char>) -> NeighborFetchModel {
    NeighborFetchModel::Items(u.submitted@)
}

/// Resolve the submissions edge of a user vertex to its fetch plan.
pub fn resolve_user_edge(user: &User, edge_name: &str) -> (plan: NeighborFetch)
    requires
        edge_name@ == "submitted"@,
    ensures
        plan.deep_view() == user_edge_spec(*user, edge_name@),
{
    NeighborFetch::Items(clone_ids_vec(&user.submitted))
}

fn clone_ids_vec(ids: &Vec<u32>) -> (out: Vec<u32>)
    ensures
        out@ == ids@,
{
    let mut out: Vec<u32> = Vec::new();
    let mut i: usize = 0;
    #[verifier::loop_isolation(false)]
    while i < ids.len()
        invariant
            i <= ids.len(),
            out@ =~= ids@.take(i as int),
        decreases ids.len() - i,
    {
        out.push(ids[i]);
        i = i + 1;
    }
    proof {
        assert(out@ =~= ids@);
    }
    out
}

/// The dispatch table of traversal edges: which vertex kind resolves which
/// edge to which fetch plan.
pub open spec fn edge_plan_spec(v: Vertex, kind_name: Seq<char>, edge: Seq<char>) -> NeighborFetchModel {
    if kind_name == "Comment"@ {
        comment_edge_spec(v->Comment_0, edge)
    } else if kind_name == "Story"@ {
        story_edge_spec(v->Story_0, edge)
    } else {
        user_edge_spec(v->User_0, edge)
    }
}

/// Whether an edge request is one the schema declares for the named vertex
/// kind, on a vertex of that kind.
pub open spec fn hn_edge_wf(v: Vertex, kind_name: Seq<char>, edge: Seq<char>) -> bool {
    if kind_name == "Comment"@ {
        v is Comment && (edge == "byUser"@ || edge == "parent"@ || edge == "reply"@)
    } else if kind_name == "Story"@ {
        v is Story && (edge == "byUser"@ || edge == "comment"@)
    } else {
        kind_name == "User"@ && v is User && edge == "submitted"@
    }
}

/// Resolve a traversal edge of any vertex to its fetch plan, dispatching on
/// the vertex kind the oracle named; the oracle only asks for
/// schema-declared kind-and-edge pairs on a vertex of that kind.
pub fn resolve_neighbors(vertex: &Vertex, kind_name: &str, edge_name: &str) -> (plan: NeighborFetch)
    requires
        hn_edge_wf(*vertex, kind_name@, edge_name@),
    ensures
        plan.deep_view() == edge_plan_spec(*vertex, kind_name@, edge_name@),
{
    if str_eq(kind_name, "Comment") {
        match vertex {
            Vertex::Comment(c) => resolve_comment_edge(c, edge_name),
            _ => {
                proof {
                    assert(false);
                }
                NeighborFetch::Items(Vec::new())
            },
        }
    } else if str_eq(kind_name, "Story") {
        match vertex {
            Vertex::Story(s) => resolve_story_edge(s, edge_name),
            _ => {
                proof {
                    assert(false);
                }
                NeighborFetch::Items(Vec::new())
            },
        }
    } else {
        match vertex {
            Vertex::User(u) => resolve_user_edge(u, edge_name),
            _ => {
                proof {
                    assert(false);
                }
                NeighborFetch::Items(Vec::new())
            },
        }
    }
}

/// A string or its absence, as a property value.
pub open spec fn opt_str(s: Option<Seq<char>>) -> ValueModel {
    match s {
        Some(s) => ValueModel::Str(s),
        None => ValueModel::Null,
    }
}

fn opt_str_value(s: &Option<String>) -> (v: Value)
    ensures
        v.deep_view() == opt_str(s.deep_view()),
{
    match s {
        Some(s) => Value::Str(s.clone()),
        None => Value::Null,
    }
}

/// A list of item identifiers, or its absence, as a property value.
pub open spec fn opt_ids(ids: Option<Vec<u32>>) -> ValueModel {
    match ids {
        Some(ks) => ValueModel::List(Seq::new(ks@.len(), |i: int| ValueModel::Uint64(ks@[i] as u64))),
        None => ValueModel::Null,
    }
}

fn opt_ids_value(ids: &Option<Vec<u32>>) -> (v: Value)
    ensures
        v.deep_view() == opt_ids(*ids),
{
    match ids {
        Some(ks) => {
            let mut items: Vec<Value> = Vec::new();
            let mut i: usize = 0;
            #[verifier::loop_isolation(false)]
            while i < ks.len()
                invariant
                    i <= ks.len(),
                    items@.len() == i as int,
                    forall|k: int|
                        0 <= k < i ==> (#[trigger] items@[k]).deep_view() == ValueModel::Uint64(
                            ks@[k] as u64,
                        ),
                decreases ks.len() - i,
            {
                items.push(Value::Uint64(ks[i] as u64));
                i = i + 1;
            }
            proof {
                assert(crate::value::value_model(Value::List(items))->List_0 =~= Seq::new(
                    ks@.len(),
                    |k: int| ValueModel::Uint64(ks@[k] as u64),
                ));
                assert(crate::value::value_model(Value::List(items)) =~= opt_ids(Some(*ks)));
            }
            Value::List(items)
        },
        None => Value::Null,
    }
}

/// The web address of an item.
pub open spec fn url_of(id: u32) -> Seq<char> {
    "https://news.ycombinator.com/item?id="@ + dec_digits(id as nat)
}

/// Render the web address of an item.
pub fn resolve_url(id: u32) -> (v: Value)
    ensures
        v.deep_view() == ValueModel::Str(url_of(id)),
{
    let base = String::from_str("https://news.ycombinator.com/item?id=");
    let digits = u64_to_string(id as u64);
    Value::Str(base.concat(digits.as_str()))
}

/// The value of one property of a comment vertex.
pub open spec fn comment_property_spec(c: Comment, p: Seq<char>) -> ValueModel {
    if p == "byUsername"@ {
        ValueModel::Str(c.by@)
    } else if p == "childCount"@ {
        opt_ids(c.kids)
    } else if p == "id"@ {
        ValueModel::Uint64(c.id as u64)
    } else if p == "text"@ {
        ValueModel::Str(c.text@)
    } else if p == "unixTime"@ {
        ValueModel::Uint64(c.time)
    } else {
        ValueModel::Str(url_of(c.id))
    }
}

/// Resolve one property of a comment vertex; the oracle only asks for
/// schema-declared properties.
pub fn resolve_comment_property(comment: &Comment, property_name: &str) -> (v: Value)
    requires
        property_name@ == "byUsername"@ || property_name@ == "childCount"@ || property_name@
            == "id"@ || property_name@ == "text"@ || property_name@ == "unixTime"@
            || property_name@ == "url"@,
    ensures
        v.deep_view() == comment_property_spec(*comment, property_name@),
{
    if str_eq(property_name, "byUsername") {
        Value::Str(comment.by.clone())
    } else if str_eq(property_name, "childCount") {
        opt_ids_value(&comment.kids)
    } else if str_eq(property_name, "id") {
        Value::Uint64(comment.id as u64)
    } else if str_eq(property_name, "text") {
        Value::Str(comment.text.clone())
    } else if str_eq(property_name, "unixTime") {
        Value::Uint64(comment.time)
    } else {
        resolve_url(comment.id)
    }
}

/// The value of one property of a job vertex.
pub open spec fn job_property_spec(j: Job, p: Seq<char>) -> ValueModel {
    if p == "id"@ {
        ValueModel::Uint64(j.id as u64)
    } else if p == "score"@ {
        ValueModel::Uint64(j.score as u64)
    } else if p == "title"@ {
        ValueModel::Str(j.title@)
    } else if p == "unixTime"@ {
        ValueModel::Uint64(j.time)
    } else {
        ValueModel::Str(url_of(j.id))
    }
}

/// Resolve one property of a job vertex; the oracle only asks for
/// schema-declared properties.
pub fn resolve_job_property(job: &Job, property_name: &str) -> (v: Value)
    requires
        property_name@ == "id"@ || property_name@ == "score"@ || property_name@ == "title"@
            || property_name@ == "unixTime"@ || property_name@ == "url"@,
    ensures
        v.deep_view() == job_property_spec(*job, property_name@),
{
    if str_eq(property_name, "id") {
        Value::Uint64(job.id as u64)
    } else if str_eq(property_name, "score") {
        Value::Uint64(job.score as u64)
    } else if str_eq(property_name, "title") {
        Value::Str(job.title.clone())
    } else if str_eq(property_name, "unixTime") {
        Value::Uint64(job.time)
    } else {
        resolve_url(job.id)
    }
}

/// The value of one property of a poll vertex.
pub open spec fn poll_property_spec(p: Poll, name: Seq<char>) -> ValueModel {
    if name == "id"@ {
        ValueModel::Uint64(p.id as u64)
    } else if name == "unixTime"@ {
        ValueModel::Uint64(p.time)
    } else {
        ValueModel::Str(url_of(p.id))
    }
}

/// Resolve one property of a poll vertex; the oracle only asks for
/// schema-declared properties.
pub fn resolve_poll_property(poll: &Poll, property_name: &str) -> (v: Value)
    requires
        property_name@ == "id"@ || property_name@ == "unixTime"@ || property_name@ == "url"@,
    ensures
        v.deep_view() == poll_property_spec(*poll, property_name@),
{
    if str_eq(property_name, "id") {
        Value::Uint64(poll.id as u64)
    } else if str_eq(property_name, "unixTime") {
        Value::Uint64(poll.time)
    } else {
        resolve_url(poll.id)
    }
}

/// The value of one property of a poll-option vertex.
pub open spec fn poll_option_property_spec(p: PollOption, name: Seq<char>) -> ValueModel {
    if name == "id"@ {
        ValueModel::Uint64(p.id as u64)
    } else if name == "unixTime"@ {
        ValueModel::Uint64(p.time)
    } else {
        ValueModel::Str(url_of(p.id))
    }
}

/// Resolve one property of a poll-option vertex; the oracle only asks for
/// schema-declared properties.
pub fn resolve_poll_option_property(poll_option: &PollOption, property_name: &str) -> (v: Value)
    requires
        property_name@ == "id"@ || property_name@ == "unixTime"@ || property_name@ == "url"@,
    ensures
        v.deep_view() == poll_option_property_spec(*poll_option, property_name@),
{
    if str_eq(property_name, "id") {
        Value::Uint64(poll_option.id as u64)
    } else if str_eq(property_name, "unixTime") {
        Value::Uint64(poll_option.time)
    } else {
        resolve_url(poll_option.id)
    }
}

/// The value of one property of a story vertex.
pub open spec fn story_property_spec(s: Story, p: Seq<char>) -> ValueModel {
    if p == "byUsername"@ {
        ValueModel::Str(s.by@)
    } else if p == "commentsCount"@ {
        ValueModel::Uint64(s.descendants as u64)
    } else if p == "id"@ {
        ValueModel::Uint64(s.id as u64)
    } else if p == "score"@ {
        ValueModel::Uint64(s.score as u64)
    } else if p == "submittedUrl"@ {
        opt_str(s.url.deep_view())
    } else if p == "text"@ {
        opt_str(s.text.deep_view())
    } else if p == "title"@ {
        ValueModel::Str(s.title@)
    } else if p == "unixTime"@ {
        ValueModel::Uint64(s.time)
    } else {
        ValueModel::Str(url_of(s.id))
    }
}

/// Resolve one property of a story vertex; the oracle only asks for
/// schema-declared properties.
pub fn resolve_story_property(story: &Story, property_name: &str) -> (v: Value)
    requires
        property_name@ == "byUsername"@ || property_name@ == "commentsCount"@ || property_name@
            == "id"@ || property_name@ == "score"@ || property_name@ == "submittedUrl"@
            || property_name@ == "text"@ || property_name@ == "title"@ || property_name@
            == "unixTime"@ || property_name@ == "url"@,
    ensures
        v.deep_view() == story_property_spec(*story, property_name@),
{
    if str_eq(property_name, "byUsername") {
        Value::Str(story.by.clone())
    } else if str_eq(property_name, "commentsCount") {
        Value::Uint64(story.descendants as u64)
    } else if str_eq(property_name, "id") {
        Value::Uint64(story.id as u64)
    } else if str_eq(property_name, "score") {
        Value::Uint64(story.score as u64)
    } else if str_eq(property_name, "submittedUrl") {
        opt_str_value(&story.url)
    } else if str_eq(property_name, "text") {
        opt_str_value(&story.text)
    } else if str_eq(property_name, "title") {
        Value::Str(story.title.clone())
    } else if str_eq(property_name, "unixTime") {
        Value::Uint64(story.time)
    } else {
        resolve_url(story.id)
    }
}

/// The value of one property of a user vertex.
pub open spec fn user_property_spec(u: User, p: Seq<char>) -> ValueModel {
    if p == "about"@ {
        opt_str(u.about.deep_view())
    } else if p == "delay"@ {
        match u.delay {
            Some(d) => ValueModel::Uint64(d as u64),
            None => ValueModel::Null,
        }
    } else if p == "id"@ {
        ValueModel::Str(u.id@)
    } else if p == "karma"@ {
        ValueModel::Uint64(u.karma as u64)
    } else {
        ValueModel::Uint64(u.created)
    }
}

/// Resolve one property of a user vertex; the oracle only asks for
/// schema-declared properties.
pub fn resolve_user_property(user: &User, property_name: &str) -> (v: Value)
    requires
        property_name@ == "about"@ || property_name@ == "delay"@ || property_name@ == "id"@
            || property_name@ == "karma"@ || property_name@ == "unixCreatedAt"@,
    ensures
        v.deep_view() == user_property_spec(*user, property_name@),
{
    if str_eq(property_name, "about") {
        opt_str_value(&user.about)
    } else if str_eq(property_name, "delay") {
        match user.delay {
            Some(d) => Value::Uint64(d as u64),
            None => Value::Null,
        }
    } else if str_eq(property_name, "id") {
        Value::Str(user.id.clone())
    } else if str_eq(property_name, "karma") {
        Value::Uint64(user.karma as u64)
    } else {
        Value::Uint64(user.created)
    }
}

/// The dispatch table of properties: the synthetic type-name property
/// uniformly for every kind, then each kind's own table.
pub open spec fn hn_property_spec(v: Vertex, kind_name: Seq<char>, p: Seq<char>) -> ValueModel {
    if p == "__typename"@ {
        ValueModel::Str(typename_spec(v))
    } else if kind_name == "Comment"@ {
        comment_property_spec(v->Comment_0, p)
    } else if kind_name == "Job"@ {
        job_property_spec(v->Job_0, p)
    } else if kind_name == "Poll"@ {
        poll_property_spec(v->Poll_0, p)
    } else if kind_name == "PollOption"@ {
        poll_option_property_spec(v->PollOption_0, p)
    } else if kind_name == "Story"@ {
        story_property_spec(v->Story_0, p)
    } else {
        user_property_spec(v->User_0, p)
    }
}

/// Whether a property request is one the schema declares for the named
/// vertex kind, on a vertex of that kind.
pub open spec fn hn_property_wf(v: Vertex, kind_name: Seq<char>, p: Seq<char>) -> bool {
    if p == "__typename"@ {
        true
    } else if kind_name == "Comment"@ {
        v is Comment && (p == "byUsername"@ || p == "childCount"@ || p == "id"@ || p == "text"@
            || p == "unixTime"@ || p == "url"@)
    } else if kind_name == "Job"@ {
        v is Job && (p == "id"@ || p == "score"@ || p == "title"@ || p == "unixTime"@ || p
            == "url"@)
    } else if kind_name == "Poll"@ {
        v is Poll && (p == "id"@ || p == "unixTime"@ || p == "url"@)
    } else if kind_name == "PollOption"@ {
        v is PollOption && (p == "id"@ || p == "unixTime"@ || p == "url"@)
    } else if kind_name == "Story"@ {
        v is Story && (p == "byUsername"@ || p == "commentsCount"@ || p == "id"@ || p == "score"@
            || p == "submittedUrl"@ || p == "text"@ || p == "title"@ || p == "unixTime"@ || p
            == "url"@)
    } else {
        kind_name == "User"@ && v is User && (p == "about"@ || p == "delay"@ || p == "id"@ || p
            == "karma"@ || p == "unixCreatedAt"@)
    }
}

/// Resolve one property of any vertex, dispatching on the vertex kind the
/// oracle named; the synthetic type-name property answers uniformly for
/// every kind.
pub fn resolve_property(vertex: &Vertex, kind_name: &str, property_name: &str) -> (v: Value)
    requires
        hn_property_wf(*vertex, kind_name@, property_name@),
    ensures
        v.deep_view() == hn_property_spec(*vertex, kind_name@, property_name@),
{
    if str_eq(property_name, "__typename") {
        return Value::Str(vertex.typename().to_owned());
    }
    if str_eq(kind_name, "Comment") {
        match vertex {
            Vertex::Comment(c) => resolve_comment_property(c, property_name),
            _ => {
                proof {
                    assert(false);
                }
                Value::Null
            },
        }
    } else if str_eq(kind_name, "Job") {
        match vertex {
            Vertex::Job(j) => resolve_job_property(j, property_name),
            _ => {
                proof {
                    assert(false);
                }
                Value::Null
            },
        }
    } else if str_eq(kind_name, "Poll") {
        match vertex {
            Vertex::Poll(p) => resolve_poll_property(p, property_name),
            _ => {
                proof {
                    assert(false);
                }
                Value::Null
            },
        }
    } else if str_eq(kind_name, "PollOption") {
        match vertex {
            Vertex::PollOption(p) => resolve_poll_option_property(p, property_name),
            _ => {
                proof {
                    assert(false);
                }
                Value::Null
            },
        }
    } else if str_eq(kind_name, "Story") {
        match vertex {
            Vertex::Story(s) => resolve_story_property(s, property_name),
            _ => {
                proof {
                    assert(false);
                }
                Value::Null
            },
        }
    } else {
        match vertex {
            Vertex::User(u) => resolve_user_property(u, property_name),
            _ => {
                proof {
                    assert(false);
                }
                Value::Null
            },
        }
    }
}

} // verus!
