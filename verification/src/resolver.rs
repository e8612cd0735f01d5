//! The resolver: turns a human-typed name, or a compact filter string, into
//! the remote id of an artifact. Candidates come from the caller — the
//! cache store or a fresh fetch — and are scanned here: a candidate whose
//! id carries the filter's prefix for its kind wins outright; only when no
//! candidate does is the first title containing the requested name taken;
//! and when neither rule matches anything, the lookup fails.

use vstd::prelude::*;
use vstd::string::*;

use crate::artifact::{Artifact, AType};
use crate::config::UserConfig;
use crate::error::{CliError, Error};
use crate::filter::{
    filter_parsed_from, head_segment, parse_filter, spec_board_prefix, spec_card_prefix,
    spec_list_prefix, Filter,
};
use crate::store::composite_key;
use crate::strutil::{contains_seq, contains_str, starts_with};
use crate::validation::{
    CardConstraint, ChecklistConstraint, Constraint, ListConstraint,
};

verus! {

/// The filter's id prefix for one artifact kind, if its segment parsed.
/// Kinds outside the grammar never match structurally.
pub open spec fn filter_prefix_for(s: Seq<char>, kind: AType) -> Option<Seq<char>> {
    match kind {
        AType::Board => spec_board_prefix(s),
        AType::List => spec_list_prefix(s),
        AType::Card => spec_card_prefix(s),
        _ => None,
    }
}

/// The structural rule: the filter holds a segment for the candidate's
/// kind, and that segment's text is a prefix of the candidate's id.
pub open spec fn structural_match(s: Seq<char>, a: Artifact) -> bool {
    match filter_prefix_for(s, a.kind) {
        Some(p) => p.is_prefix_of(a._id@),
        None => false,
    }
}

/// The fallback rule: the candidate's title contains the requested name.
pub open spec fn title_match(a: Artifact, name: Seq<char>) -> bool {
    contains_seq(a.title@, name)
}

/// A candidate matches when either rule accepts it.
pub open spec fn artifact_matches(s: Seq<char>, a: Artifact, name: Seq<char>) -> bool {
    structural_match(s, a) || title_match(a, name)
}

/// Index of the first structural match among the candidates.
pub open spec fn first_structural(s: Seq<char>, c: Seq<Artifact>) -> Option<int>
    decreases c.len(),
{
    if c.len() == 0 {
        None
    } else if structural_match(s, c[0]) {
        Some(0)
    } else {
        match first_structural(s, c.drop_first()) {
            Some(i) => Some(i + 1),
            None => None,
        }
    }
}

/// Index of the first title match among the candidates.
pub open spec fn first_title(name: Seq<char>, c: Seq<Artifact>) -> Option<int>
    decreases c.len(),
{
    if c.len() == 0 {
        None
    } else if title_match(c[0], name) {
        Some(0)
    } else {
        match first_title(name, c.drop_first()) {
            Some(i) => Some(i + 1),
            None => None,
        }
    }
}

/// The candidate the resolver settles on: the first structural match when
/// one exists, else the first title match, else none.
pub open spec fn resolve_choice(s: Seq<char>, name: Seq<char>, c: Seq<Artifact>) -> Option<int> {
    match first_structural(s, c) {
        Some(i) => Some(i),
        None => first_title(name, c),
    }
}

proof fn lemma_first_structural_props(s: Seq<char>, c: Seq<Artifact>)
    ensures
        match first_structural(s, c) {
            Some(i) => 0 <= i < c.len() && structural_match(s, c[i]) && (forall|j: int|
                0 <= j < i ==> !structural_match(s, c[j])),
            None => forall|j: int| 0 <= j < c.len() ==> !structural_match(s, c[j]),
        },
    decreases c.len(),
{
    if c.len() == 0 {
    } else if structural_match(s, c[0]) {
    } else {
        let t = c.drop_first();
        lemma_first_structural_props(s, t);
        assert forall|j: int| 1 <= j < c.len() implies t[j - 1] == c[j] by {}
        match first_structural(s, t) {
            Some(i) => {
                assert(t[i] == c[i + 1]);
                assert forall|j: int| 0 <= j < i + 1 implies !structural_match(s, c[j]) by {
                    if j > 0 {
                        assert(t[j - 1] == c[j]);
                    }
                }
            },
            None => {
                assert forall|j: int| 0 <= j < c.len() implies !structural_match(s, c[j]) by {
                    if j > 0 {
                        assert(t[j - 1] == c[j]);
                    }
                }
            },
        }
    }
}

proof fn lemma_first_title_props(name: Seq<char>, c: Seq<Artifact>)
    ensures
        match first_title(name, c) {
            Some(i) => 0 <= i < c.len() && title_match(c[i], name) && (forall|j: int|
                0 <= j < i ==> !title_match(c[j], name)),
            None => forall|j: int| 0 <= j < c.len() ==> !title_match(c[j], name),
        },
    decreases c.len(),
{
    if c.len() == 0 {
    } else if title_match(c[0], name) {
    } else {
        let t = c.drop_first();
        lemma_first_title_props(name, t);
        match first_title(name, t) {
            Some(i) => {
                assert(t[i] == c[i + 1]);
                assert forall|j: int| 0 <= j < i + 1 implies !title_match(c[j], name) by {
                    if j > 0 {
                        assert(t[j - 1] == c[j]);
                    }
                }
            },
            None => {
                assert forall|j: int| 0 <= j < c.len() implies !title_match(c[j], name) by {
                    if j > 0 {
                        assert(t[j - 1] == c[j]);
                    }
                }
            },
        }
    }
}

proof fn lemma_first_structural_at(s: Seq<char>, c: Seq<Artifact>, i: int)
    requires
        0 <= i < c.len(),
        structural_match(s, c[i]),
        forall|j: int| 0 <= j < i ==> !structural_match(s, c[j]),
    ensures
        first_structural(s, c) == Some(i),
{
    lemma_first_structural_props(s, c);
    match first_structural(s, c) {
        Some(k) => {
            if k < i {
                assert(!structural_match(s, c[k]));
            } else if k > i {
                assert(!structural_match(s, c[i]));
            }
        },
        None => {
            assert(!structural_match(s, c[i]));
        },
    }
}

proof fn lemma_first_title_at(name: Seq<char>, c: Seq<Artifact>, i: int)
    requires
        0 <= i < c.len(),
        title_match(c[i], name),
        forall|j: int| 0 <= j < i ==> !title_match(c[j], name),
    ensures
        first_title(name, c) == Some(i),
{
    lemma_first_title_props(name, c);
    match first_title(name, c) {
        Some(k) => {
            if k < i {
                assert(!title_match(c[k], name));
            } else if k > i {
                assert(!title_match(c[i], name));
            }
        },
        None => {
            assert(!title_match(c[i], name));
        },
    }
}

/// Match priority: when some candidate's id carries the filter's prefix
/// for its kind, the resolver settles on a structural match — the first
/// one — whether or not its title contains the requested name.
pub proof fn lemma_match_priority(s: Seq<char>, name: Seq<char>, c: Seq<Artifact>)
    requires
        exists|i: int| 0 <= i < c.len() && #[trigger] structural_match(s, c[i]),
    ensures
        (resolve_choice(s, name, c) matches Some(k) && 0 <= k < c.len() && structural_match(
            s,
            c[k],
        ) && (forall|j: int| 0 <= j < k ==> !structural_match(s, c[j]))),
{
    lemma_first_structural_props(s, c);
    let w = choose|i: int| 0 <= i < c.len() && #[trigger] structural_match(s, c[i]);
    match first_structural(s, c) {
        Some(k) => {},
        None => {
            assert(!structural_match(s, c[w]));
        },
    }
}

/// Fallback correctness: when no candidate matches structurally, the
/// resolver settles on the first candidate whose title contains the
/// requested name, and on none when no title does.
pub proof fn lemma_title_fallback(s: Seq<char>, name: Seq<char>, c: Seq<Artifact>)
    requires
        forall|i: int| 0 <= i < c.len() ==> !(#[trigger] structural_match(s, c[i])),
    ensures
        match resolve_choice(s, name, c) {
            Some(k) => 0 <= k < c.len() && title_match(c[k], name) && (forall|j: int|
                0 <= j < k ==> !title_match(c[j], name)),
            None => forall|i: int| 0 <= i < c.len() ==> !title_match(c[i], name),
        },
{
    lemma_first_structural_props(s, c);
    match first_structural(s, c) {
        Some(k) => {
            assert(!structural_match(s, c[k]));
        },
        None => {
            lemma_first_title_props(name, c);
        },
    }
}

/// Not-found completeness: when no candidate matches either rule, the
/// resolver settles on nothing — it never hands back an id.
pub proof fn lemma_not_found_complete(s: Seq<char>, name: Seq<char>, c: Seq<Artifact>)
    requires
        forall|i: int| 0 <= i < c.len() ==> !(#[trigger] artifact_matches(s, c[i], name)),
    ensures
        resolve_choice(s, name, c) is None,
{
    lemma_first_structural_props(s, c);
    lemma_first_title_props(name, c);
    match first_structural(s, c) {
        Some(k) => {
            assert(!artifact_matches(s, c[k], name));
        },
        None => {
            match first_title(name, c) {
                Some(k) => {
                    assert(!artifact_matches(s, c[k], name));
                },
                None => {},
            }
        },
    }
}

/// An empty filter string never attempts structural matching: with it,
/// resolution rests on titles alone.
pub proof fn lemma_empty_filter_no_structural(a: Artifact)
    ensures
        !structural_match(Seq::<char>::empty(), a),
{
    let s = Seq::<char>::empty();
    assert(head_segment(s) =~= s);
    assert(spec_board_prefix(s) is None);
}

/// Whether the resolver's winner among `c` is index `k` and carries id
/// `id`; `None` as winner means a failed lookup.
pub open spec fn resolved_id(s: Seq<char>, name: Seq<char>, c: Seq<Artifact>, id: String) -> bool {
    match resolve_choice(s, name, c) {
        Some(k) => id == c[k]._id,
        None => false,
    }
}

/// One command's resolver: the user's configuration, the raw filter
/// string, and whether the cache may be consulted at all.
#[derive(Debug)]
pub struct Query {
    pub config: UserConfig,
    pub filter: String,
    pub deny_store_usage: bool,
}

/// Tests the structural rule against one candidate, using the parsed form
/// of the raw filter.
fn structural_hit(f: &Filter, a: &Artifact, Ghost(raw): Ghost<Seq<char>>) -> (r: bool)
    requires
        filter_parsed_from(*f, raw),
    ensures
        r == structural_match(raw, *a),
{
    match a.kind {
        AType::Board => match &f.board {
            Some(p) => starts_with(a._id.as_str(), p.as_str()),
            None => false,
        },
        AType::List => match &f.list {
            Some(p) => starts_with(a._id.as_str(), p.as_str()),
            None => false,
        },
        AType::Card => match &f.card {
            Some(p) => starts_with(a._id.as_str(), p.as_str()),
            None => false,
        },
        _ => false,
    }
}

impl Query {
    /// Whether one candidate satisfies the filter's structural rule or,
    /// failing that, the title rule for `name`.
    pub fn check_artifact(&self, artifact: &Artifact, name: &str) -> (r: bool)
        ensures
            r == artifact_matches(self.filter@, *artifact, name@),
    {
        let f = parse_filter(self.filter.as_str());
        if structural_hit(&f, artifact, Ghost(self.filter@)) {
            true
        } else {
            contains_str(artifact.title.as_str(), name)
        }
    }

    /// Scans the candidates and returns the id of the resolver's winner:
    /// the first structural match if any candidate has one, else the first
    /// title match, else the fixed not-found error.
    pub fn extract_id(&self, vecs: &Vec<Artifact>, name: &str) -> (r: Result<String, Error>)
        ensures
            match r {
                Ok(id) => resolved_id(self.filter@, name@, vecs@, id),
                Err(e) => ({
                    &&& resolve_choice(self.filter@, name@, vecs@) is None
                    &&& forall|i: int|
                        0 <= i < vecs@.len() ==> !(#[trigger] artifact_matches(
                            self.filter@,
                            vecs@[i],
                            name@,
                        ))
                    &&& (e matches Error::Cli(ce) && ce.message@ == "Artifact not found"@
                        && ce.error_code == 1)
                }),
            },
    {
        let ghost raw = self.filter@;
        let f = parse_filter(self.filter.as_str());
        let n = vecs.len();
        let mut i: usize = 0;
        while i < n
            invariant
                i <= n,
                n == vecs@.len(),
                raw == self.filter@,
                filter_parsed_from(f, raw),
                forall|j: int| 0 <= j < i ==> !(#[trigger] structural_match(raw, vecs@[j])),
            decreases n - i,
        {
            if structural_hit(&f, &vecs[i], Ghost(raw)) {
                proof {
                    lemma_first_structural_at(raw, vecs@, i as int);
                }
                return Ok(vecs[i]._id.clone());
            }
            i = i + 1;
        }
        proof {
            lemma_first_structural_props(raw, vecs@);
            if first_structural(raw, vecs@) is Some {
                let k = first_structural(raw, vecs@)->Some_0;
                assert(!structural_match(raw, vecs@[k]));
            }
        }
        let mut i: usize = 0;
        while i < n
            invariant
                i <= n,
                n == vecs@.len(),
                raw == self.filter@,
                first_structural(raw, vecs@) is None,
                forall|j: int| 0 <= j < i ==> !(#[trigger] title_match(vecs@[j], name@)),
            decreases n - i,
        {
            if contains_str(vecs[i].title.as_str(), name) {
                proof {
                    lemma_first_title_at(name@, vecs@, i as int);
                }
                return Ok(vecs[i]._id.clone());
            }
            i = i + 1;
        }
        proof {
            lemma_first_title_props(name@, vecs@);
            if first_title(name@, vecs@) is Some {
                let k = first_title(name@, vecs@)->Some_0;
                assert(!title_match(vecs@[k], name@));
            }
        }
        Err(CliError::new_msg("Artifact not found").as_enum())
    }

    /// Resolves a name against a candidate supply's outcome: a failed
    /// supply is the fixed not-found error, a delivered listing is
    /// scanned.
    pub fn confirm_valid_name(&self, vecs: Result<Vec<Artifact>, Error>, name: &str) -> (r: Result<
        String,
        Error,
    >)
        ensures
            match vecs {
                Ok(v) => match r {
                    Ok(id) => resolved_id(self.filter@, name@, v@, id),
                    Err(e) => ({
                        &&& resolve_choice(self.filter@, name@, v@) is None
                        &&& (e matches Error::Cli(ce) && ce.message@ == "Artifact not found"@
                            && ce.error_code == 1)
                    }),
                },
                Err(_) => (r matches Err(Error::Cli(ce)) && ce.message@ == "Artifact not found"@
                    && ce.error_code == 1),
            },
    {
        match vecs {
            Ok(v) => self.extract_id(&v, name),
            Err(_e) => Err(CliError::new_msg("Artifact not found").as_enum()),
        }
    }

    /// Resolves a board name against the delivered board listing.
    pub fn find_board_id(&self, boards: Result<Vec<Artifact>, Error>, name: &str) -> (r: Result<
        String,
        Error,
    >)
        ensures
            match boards {
                Ok(v) => match r {
                    Ok(id) => resolved_id(self.filter@, name@, v@, id),
                    Err(e) => ({
                        &&& resolve_choice(self.filter@, name@, v@) is None
                        &&& (e matches Error::Cli(ce) && ce.message@ == "Artifact not found"@
                            && ce.error_code == 1)
                    }),
                },
                Err(_) => (r matches Err(Error::Cli(ce)) && ce.message@ == "Artifact not found"@
                    && ce.error_code == 1),
            },
    {
        self.confirm_valid_name(boards, name)
    }

    /// Resolves a list name against the delivered list listing.
    pub fn find_list_id(&self, lists: Result<Vec<Artifact>, Error>, name: &str) -> (r: Result<
        String,
        Error,
    >)
        ensures
            match lists {
                Ok(v) => match r {
                    Ok(id) => resolved_id(self.filter@, name@, v@, id),
                    Err(e) => ({
                        &&& resolve_choice(self.filter@, name@, v@) is None
                        &&& (e matches Error::Cli(ce) && ce.message@ == "Artifact not found"@
                            && ce.error_code == 1)
                    }),
                },
                Err(_) => (r matches Err(Error::Cli(ce)) && ce.message@ == "Artifact not found"@
                    && ce.error_code == 1),
            },
    {
        self.confirm_valid_name(lists, name)
    }

    /// Resolves a card name against the delivered card listing.
    pub fn find_card_id(&self, cards: Result<Vec<Artifact>, Error>, name: &str) -> (r: Result<
        String,
        Error,
    >)
        ensures
            match cards {
                Ok(v) => match r {
                    Ok(id) => resolved_id(self.filter@, name@, v@, id),
                    Err(e) => ({
                        &&& resolve_choice(self.filter@, name@, v@) is None
                        &&& (e matches Error::Cli(ce) && ce.message@ == "Artifact not found"@
                            && ce.error_code == 1)
                    }),
                },
                Err(_) => (r matches Err(Error::Cli(ce)) && ce.message@ == "Artifact not found"@
                    && ce.error_code == 1),
            },
    {
        self.confirm_valid_name(cards, name)
    }

    /// Resolves a checklist name against the delivered checklist listing.
    pub fn find_checklist_id(&self, checklists: Result<Vec<Artifact>, Error>, name: &str) -> (r:
        Result<String, Error>)
        ensures
            match checklists {
                Ok(v) => match r {
                    Ok(id) => resolved_id(self.filter@, name@, v@, id),
                    Err(e) => ({
                        &&& resolve_choice(self.filter@, name@, v@) is None
                        &&& (e matches Error::Cli(ce) && ce.message@ == "Artifact not found"@
                            && ce.error_code == 1)
                    }),
                },
                Err(_) => (r matches Err(Error::Cli(ce)) && ce.message@ == "Artifact not found"@
                    && ce.error_code == 1),
            },
    {
        self.confirm_valid_name(checklists, name)
    }

    /// Resolves the default swimlane against the delivered swimlane
    /// listing: the requested name is the literal `Default`.
    pub fn find_swimlane_id(&self, swimlanes: Result<Vec<Artifact>, Error>) -> (r: Result<
        String,
        Error,
    >)
        ensures
            match swimlanes {
                Ok(v) => match r {
                    Ok(id) => resolved_id(self.filter@, "Default"@, v@, id),
                    Err(e) => ({
                        &&& resolve_choice(self.filter@, "Default"@, v@) is None
                        &&& (e matches Error::Cli(ce) && ce.message@ == "Artifact not found"@
                            && ce.error_code == 1)
                    }),
                },
                Err(_) => (r matches Err(Error::Cli(ce)) && ce.message@ == "Artifact not found"@
                    && ce.error_code == 1),
            },
    {
        self.confirm_valid_name(swimlanes, "Default")
    }
}

/// The one remote fetch a candidate supply needs, with the ancestor ids
/// the route takes.
#[derive(Debug)]
pub enum FetchGoal {
    Boards,
    Lists { board_id: String },
    Swimlanes { board_id: String },
    Cards { board_id: String, list_id: String },
    Checklists { board_id: String, card_id: String },
    Nothing,
}

/// The view of an optional borrowed string.
pub open spec fn opt_str_view(o: Option<&str>) -> Option<Seq<char>> {
    match o {
        Some(s) => Some(s@),
        None => None,
    }
}

/// `g` is the right fetch for `kind` under the given ancestors.
pub open spec fn goal_matches(
    g: FetchGoal,
    kind: AType,
    b: Option<Seq<char>>,
    s: Option<Seq<char>>,
) -> bool {
    match kind {
        AType::Board => g is Boards,
        AType::List => (g matches FetchGoal::Lists { board_id } && Some(board_id@) == b),
        AType::Swimlane => (g matches FetchGoal::Swimlanes { board_id } && Some(board_id@) == b),
        AType::Card => (g matches FetchGoal::Cards { board_id, list_id } && Some(board_id@) == b
            && Some(list_id@) == s),
        AType::Checklist => (g matches FetchGoal::Checklists { board_id, card_id } && Some(
            board_id@,
        ) == b && Some(card_id@) == s),
        AType::Empty => g is Nothing,
    }
}

/// The fetch that obtains candidates of one kind. Non-board kinds need
/// their board, cards and checklists their second ancestor too; the null
/// kind fetches nothing and yields the empty listing.
pub fn fulfill_goal(kind: &AType, board_id: Option<&str>, second_artifact_id: Option<&str>) -> (r:
    FetchGoal)
    requires
        (*kind == AType::List || *kind == AType::Swimlane || *kind == AType::Card || *kind
            == AType::Checklist) ==> board_id is Some,
        (*kind == AType::Card || *kind == AType::Checklist) ==> second_artifact_id is Some,
    ensures
        goal_matches(r, *kind, opt_str_view(board_id), opt_str_view(second_artifact_id)),
{
    match kind {
        AType::Board => FetchGoal::Boards,
        AType::List => match board_id {
            Some(b) => FetchGoal::Lists { board_id: b.to_owned() },
            None => FetchGoal::Nothing,
        },
        AType::Swimlane => match board_id {
            Some(b) => FetchGoal::Swimlanes { board_id: b.to_owned() },
            None => FetchGoal::Nothing,
        },
        AType::Card => match (board_id, second_artifact_id) {
            (Some(b), Some(l)) => FetchGoal::Cards {
                board_id: b.to_owned(),
                list_id: l.to_owned(),
            },
            _ => FetchGoal::Nothing,
        },
        AType::Checklist => match (board_id, second_artifact_id) {
            (Some(b), Some(c)) => FetchGoal::Checklists {
                board_id: b.to_owned(),
                card_id: c.to_owned(),
            },
            _ => FetchGoal::Nothing,
        },
        AType::Empty => FetchGoal::Nothing,
    }
}

/// The composite parent key as the specification sees it.
pub open spec fn composite_key_view(b: Option<Seq<char>>, s: Option<Seq<char>>) -> Seq<char> {
    match b {
        Some(bv) => match s {
            Some(sv) => bv + "_"@ + sv,
            None => bv,
        },
        None => Seq::<char>::empty(),
    }
}

/// How one candidate supply proceeds.
#[derive(Debug)]
pub enum SupplyPlan {
    /// Exactly one remote fetch; the store is neither read nor written.
    Remote(FetchGoal),
    /// Read the entry under `key` first; serve it while fresh, else run
    /// `goal` and overwrite the entry.
    CacheFirst { key: String, goal: FetchGoal },
}

impl Query {
    /// Plans one candidate supply. Denying the store, or demanding a fresh
    /// listing, bypasses the cache entirely — one remote fetch, nothing
    /// read, nothing written; otherwise the cache entry under the
    /// composite key is consulted first.
    pub fn inquire_plan(
        &self,
        kind: &AType,
        board_id: Option<&str>,
        second_id: Option<&str>,
        fresh_request: bool,
    ) -> (r: SupplyPlan)
        requires
            (*kind == AType::List || *kind == AType::Swimlane || *kind == AType::Card || *kind
                == AType::Checklist) ==> board_id is Some,
            (*kind == AType::Card || *kind == AType::Checklist) ==> second_id is Some,
        ensures
            *kind == AType::Empty ==> (r matches SupplyPlan::Remote(g) && g is Nothing),
            (*kind != AType::Empty && (self.deny_store_usage || fresh_request)) ==> (r
                matches SupplyPlan::Remote(g) && goal_matches(
                g,
                *kind,
                opt_str_view(board_id),
                opt_str_view(second_id),
            )),
            (*kind != AType::Empty && !(self.deny_store_usage || fresh_request)) ==> (r
                matches SupplyPlan::CacheFirst { key, goal } && key@ == composite_key_view(
                opt_str_view(board_id),
                opt_str_view(second_id),
            ) && goal_matches(goal, *kind, opt_str_view(board_id), opt_str_view(second_id))),
    {
        // The null kind is a sentinel: it has nothing to fetch, and its
        // empty listing never touches the store.
        if *kind == AType::Empty {
            return SupplyPlan::Remote(FetchGoal::Nothing);
        }
        let goal = fulfill_goal(kind, board_id, second_id);
        if self.deny_store_usage || fresh_request {
            SupplyPlan::Remote(goal)
        } else {
            SupplyPlan::CacheFirst { key: composite_key(board_id, second_id), goal }
        }
    }
}

/// The next ancestor lookup a constraint still needs, in parent-to-child
/// order; a constraint is complete when every id it carries is filled.
#[derive(Debug)]
pub enum ConstraintStage {
    NeedsBoard { name: String },
    NeedsList { board_id: String, name: String },
    NeedsCard { board_id: String, list_id: String, name: String },
    Complete,
    Unsupported,
}

/// The stage a constraint is at: which ancestor id is still empty.
pub open spec fn spec_stage(c: Constraint) -> ConstraintStage {
    match c {
        Constraint::Board(_) => ConstraintStage::Complete,
        Constraint::Login(_) => ConstraintStage::Unsupported,
        Constraint::List(con) => if con.board._id@.len() == 0 {
            ConstraintStage::NeedsBoard { name: con.board.title }
        } else {
            ConstraintStage::Complete
        },
        Constraint::Card(con) => if con.board._id@.len() == 0 {
            ConstraintStage::NeedsBoard { name: con.board.title }
        } else if con.list._id@.len() == 0 {
            ConstraintStage::NeedsList { board_id: con.board._id, name: con.list.title }
        } else {
            ConstraintStage::Complete
        },
        Constraint::Checklist(con) => if con.board._id@.len() == 0 {
            ConstraintStage::NeedsBoard { name: con.board.title }
        } else if con.list._id@.len() == 0 {
            ConstraintStage::NeedsList { board_id: con.board._id, name: con.list.title }
        } else if con.card._id@.len() == 0 {
            ConstraintStage::NeedsCard {
                board_id: con.board._id,
                list_id: con.list._id,
                name: con.card.title,
            }
        } else {
            ConstraintStage::Complete
        },
    }
}

/// `c` with its board id filled in; constraints without a board keep
/// their shape.
pub open spec fn with_board_id(c: Constraint, id: String) -> Constraint {
    match c {
        Constraint::List(con) => Constraint::List(
            ListConstraint {
                board: Artifact { _id: id, title: con.board.title, kind: con.board.kind },
            },
        ),
        Constraint::Card(con) => Constraint::Card(
            CardConstraint {
                board: Artifact { _id: id, title: con.board.title, kind: con.board.kind },
                list: con.list,
            },
        ),
        Constraint::Checklist(con) => Constraint::Checklist(
            ChecklistConstraint {
                board: Artifact { _id: id, title: con.board.title, kind: con.board.kind },
                list: con.list,
                card: con.card,
            },
        ),
        _ => c,
    }
}

/// `c` with its list id filled in.
pub open spec fn with_list_id(c: Constraint, id: String) -> Constraint {
    match c {
        Constraint::Card(con) => Constraint::Card(
            CardConstraint {
                board: con.board,
                list: Artifact { _id: id, title: con.list.title, kind: con.list.kind },
            },
        ),
        Constraint::Checklist(con) => Constraint::Checklist(
            ChecklistConstraint {
                board: con.board,
                list: Artifact { _id: id, title: con.list.title, kind: con.list.kind },
                card: con.card,
            },
        ),
        _ => c,
    }
}

/// `c` with its card id filled in.
pub open spec fn with_card_id(c: Constraint, id: String) -> Constraint {
    match c {
        Constraint::Checklist(con) => Constraint::Checklist(
            ChecklistConstraint {
                board: con.board,
                list: con.list,
                card: Artifact { _id: id, title: con.card.title, kind: con.card.kind },
            },
        ),
        _ => c,
    }
}

/// The next lookup a constraint needs.
pub fn constraint_stage(c: &Constraint) -> (r: ConstraintStage)
    ensures
        r == spec_stage(*c),
{
    match c {
        Constraint::Board(_) => ConstraintStage::Complete,
        Constraint::Login(_) => ConstraintStage::Unsupported,
        Constraint::List(con) => if con.board._id.as_str().is_empty() {
            ConstraintStage::NeedsBoard { name: con.board.title.clone() }
        } else {
            ConstraintStage::Complete
        },
        Constraint::Card(con) => if con.board._id.as_str().is_empty() {
            ConstraintStage::NeedsBoard { name: con.board.title.clone() }
        } else if con.list._id.as_str().is_empty() {
            ConstraintStage::NeedsList {
                board_id: con.board._id.clone(),
                name: con.list.title.clone(),
            }
        } else {
            ConstraintStage::Complete
        },
        Constraint::Checklist(con) => if con.board._id.as_str().is_empty() {
            ConstraintStage::NeedsBoard { name: con.board.title.clone() }
        } else if con.list._id.as_str().is_empty() {
            ConstraintStage::NeedsList {
                board_id: con.board._id.clone(),
                name: con.list.title.clone(),
            }
        } else if con.card._id.as_str().is_empty() {
            ConstraintStage::NeedsCard {
                board_id: con.board._id.clone(),
                list_id: con.list._id.clone(),
                name: con.card.title.clone(),
            }
        } else {
            ConstraintStage::Complete
        },
    }
}

fn set_board_id(c: Constraint, id: String) -> (r: Constraint)
    ensures
        r == with_board_id(c, id),
{
    match c {
        Constraint::List(con) => Constraint::List(
            ListConstraint {
                board: Artifact { _id: id, title: con.board.title, kind: con.board.kind },
            },
        ),
        Constraint::Card(con) => Constraint::Card(
            CardConstraint {
                board: Artifact { _id: id, title: con.board.title, kind: con.board.kind },
                list: con.list,
            },
        ),
        Constraint::Checklist(con) => Constraint::Checklist(
            ChecklistConstraint {
                board: Artifact { _id: id, title: con.board.title, kind: con.board.kind },
                list: con.list,
                card: con.card,
            },
        ),
        other => other,
    }
}

fn set_list_id(c: Constraint, id: String) -> (r: Constraint)
    ensures
        r == with_list_id(c, id),
{
    match c {
        Constraint::Card(con) => Constraint::Card(
            CardConstraint {
                board: con.board,
                list: Artifact { _id: id, title: con.list.title, kind: con.list.kind },
            },
        ),
        Constraint::Checklist(con) => Constraint::Checklist(
            ChecklistConstraint {
                board: con.board,
                list: Artifact { _id: id, title: con.list.title, kind: con.list.kind },
                card: con.card,
            },
        ),
        other => other,
    }
}

fn set_card_id(c: Constraint, id: String) -> (r: Constraint)
    ensures
        r == with_card_id(c, id),
{
    match c {
        Constraint::Checklist(con) => Constraint::Checklist(
            ChecklistConstraint {
                board: con.board,
                list: con.list,
                card: Artifact { _id: id, title: con.card.title, kind: con.card.kind },
            },
        ),
        other => other,
    }
}

/// Advances a constraint by one resolved ancestor: a delivered id fills
/// the field of the current stage, a failed lookup becomes the stage's
/// fixed error, and a constraint past its last stage passes through.
pub fn apply_resolution(c: Constraint, outcome: Result<String, Error>) -> (r: Result<
    Constraint,
    Error,
>)
    ensures
        spec_stage(c) is Unsupported ==> (r matches Err(Error::Cli(ce)) && ce.message@
            == "NOT IMPLEMENTED"@ && ce.error_code == 1),
        spec_stage(c) is Complete ==> r == Ok::<Constraint, Error>(c),
        spec_stage(c) is NeedsBoard ==> match outcome {
            Ok(id) => r == Ok::<Constraint, Error>(with_board_id(c, id)),
            Err(_) => (r matches Err(Error::Cli(ce)) && ce.message@ == "Board not found"@
                && ce.error_code == 1),
        },
        spec_stage(c) is NeedsList ==> match outcome {
            Ok(id) => r == Ok::<Constraint, Error>(with_list_id(c, id)),
            Err(_) => (r matches Err(Error::Cli(ce)) && ce.message@ == "List not found"@
                && ce.error_code == 1),
        },
        spec_stage(c) is NeedsCard ==> match outcome {
            Ok(id) => r == Ok::<Constraint, Error>(with_card_id(c, id)),
            Err(_) => (r matches Err(Error::Cli(ce)) && ce.message@ == "Card not found"@
                && ce.error_code == 1),
        },
{
    match constraint_stage(&c) {
        ConstraintStage::Unsupported => Err(CliError::new_msg("NOT IMPLEMENTED").as_enum()),
        ConstraintStage::Complete => Ok(c),
        ConstraintStage::NeedsBoard { .. } => match outcome {
            Ok(id) => Ok(set_board_id(c, id)),
            Err(_) => Err(CliError::new_msg("Board not found").as_enum()),
        },
        ConstraintStage::NeedsList { .. } => match outcome {
            Ok(id) => Ok(set_list_id(c, id)),
            Err(_) => Err(CliError::new_msg("List not found").as_enum()),
        },
        ConstraintStage::NeedsCard { .. } => match outcome {
            Ok(id) => Ok(set_card_id(c, id)),
            Err(_) => Err(CliError::new_msg("Card not found").as_enum()),
        },
    }
}

} // verus!
