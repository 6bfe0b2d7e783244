//! Constraint/index set: the uniqueness constraints and secondary indexes
//! the entity catalog requires, applied idempotently at initialization.
//!
//! Every declaration is guarded by `IF NOT EXISTS`, so applying the set is
//! modelled as adding each text the store does not already hold: applying it
//! twice changes nothing the second time and never errors.  Against a live
//! engine a single refused declaration is reported and skipped while the
//! rest continue; in the model a declaration never fails.

use vstd::prelude::*;
use crate::store::GraphStore;

verus! {

/// Whether a declaration states a uniqueness constraint or an index.
#[derive(Clone, Copy, Debug, PartialEq, Eq, Structural)]
pub enum DeclKind {
    Constraint,
    Index,
}

/// One declaration of the set: its kind and the exact text handed to the
/// engine.
#[derive(Debug, Clone, PartialEq)]
pub struct SchemaDecl {
    pub kind: DeclKind,
    pub text: String,
}

/// What applying one declaration did: `created` is false when the store
/// already held it.
#[derive(Debug, Clone, PartialEq)]
pub struct ApplyOutcome {
    pub text: String,
    pub created: bool,
}

/// The texts of the whole set, constraints first, in application order.
pub open spec fn schema_texts() -> Seq<Seq<char>> {
    seq![
        "CREATE CONSTRAINT project_name_unique IF NOT EXISTS FOR (p:Project) REQUIRE p.name IS UNIQUE"@,
        "CREATE CONSTRAINT repository_url_unique IF NOT EXISTS FOR (r:Repository) REQUIRE r.url IS UNIQUE"@,
        "CREATE CONSTRAINT branch_name_repo_unique IF NOT EXISTS FOR (b:Branch) REQUIRE (b.name, b.repository_id) IS UNIQUE"@,
        "CREATE CONSTRAINT ticket_id_unique IF NOT EXISTS FOR (t:Ticket) REQUIRE t.ticket_id IS UNIQUE"@,
        "CREATE CONSTRAINT dashboard_url_unique IF NOT EXISTS FOR (d:Dashboard) REQUIRE d.url IS UNIQUE"@,
        "CREATE CONSTRAINT notebook_url_unique IF NOT EXISTS FOR (n:Notebook) REQUIRE n.url IS UNIQUE"@,
        "CREATE CONSTRAINT pipeline_name_unique IF NOT EXISTS FOR (c:CIPipeline) REQUIRE (c.name, c.url) IS UNIQUE"@,
        "CREATE INDEX project_created_at IF NOT EXISTS FOR (p:Project) ON (p.created_at)"@,
        "CREATE INDEX repository_local_path IF NOT EXISTS FOR (r:Repository) ON (r.local_path)"@,
        "CREATE INDEX branch_is_working IF NOT EXISTS FOR (b:Branch) ON (b.is_working_branch)"@,
        "CREATE INDEX pr_status IF NOT EXISTS FOR (pr:PullRequest) ON (pr.status)"@,
        "CREATE INDEX pr_number IF NOT EXISTS FOR (pr:PullRequest) ON (pr.number)"@,
        "CREATE INDEX ticket_status IF NOT EXISTS FOR (t:Ticket) ON (t.status)"@,
        "CREATE INDEX ticket_type IF NOT EXISTS FOR (t:Ticket) ON (t.ticket_type)"@,
    ]
}

/// The number of constraint declarations; the texts before this position
/// are constraints, the rest indexes.
pub open spec fn constraint_count() -> int {
    7
}

/// Applying one declaration: a text the store already holds is left alone,
/// a new one is appended.
pub open spec fn apply_step(s: Seq<Seq<char>>, t: Seq<char>) -> Seq<Seq<char>> {
    if s.contains(t) {
        s
    } else {
        s.push(t)
    }
}

/// The store's declaration texts after the first `n` declarations of the
/// set were applied to `s`.
pub open spec fn apply_upto(s: Seq<Seq<char>>, n: int) -> Seq<Seq<char>>
    decreases n,
{
    if n <= 0 {
        s
    } else {
        apply_step(apply_upto(s, n - 1), schema_texts()[n - 1])
    }
}

/// The store's declaration texts after the whole set was applied.
pub open spec fn apply_model(s: Seq<Seq<char>>) -> Seq<Seq<char>> {
    apply_upto(s, schema_texts().len() as int)
}

proof fn lemma_step_keeps(s: Seq<Seq<char>>, t: Seq<char>, u: Seq<char>)
    requires
        s.contains(u),
    ensures
        apply_step(s, t).contains(u),
{
    let i = choose|i: int| 0 <= i < s.len() && s[i] == u;
    if !s.contains(t) {
        assert(s.push(t)[i] == u);
    }
}

proof fn lemma_step_adds(s: Seq<Seq<char>>, t: Seq<char>)
    ensures
        apply_step(s, t).contains(t),
{
    if !s.contains(t) {
        assert(s.push(t)[s.len() as int] == t);
    }
}

/// After the first `n` declarations are applied, each of them is present.
proof fn lemma_upto_contains(s: Seq<Seq<char>>, n: int)
    requires
        0 <= n <= schema_texts().len(),
    ensures
        forall|i: int| 0 <= i < n ==> apply_upto(s, n).contains(#[trigger] schema_texts()[i]),
    decreases n,
{
    if n > 0 {
        lemma_upto_contains(s, n - 1);
        assert forall|i: int| 0 <= i < n implies apply_upto(s, n).contains(
            #[trigger] schema_texts()[i],
        ) by {
            if i < n - 1 {
                lemma_step_keeps(apply_upto(s, n - 1), schema_texts()[n - 1], schema_texts()[i]);
            } else {
                lemma_step_adds(apply_upto(s, n - 1), schema_texts()[n - 1]);
            }
        }
    }
}

/// Applying declarations the store already holds changes nothing.
proof fn lemma_upto_absorbed(s: Seq<Seq<char>>, n: int)
    requires
        0 <= n <= schema_texts().len(),
        forall|i: int| 0 <= i < n ==> s.contains(#[trigger] schema_texts()[i]),
    ensures
        apply_upto(s, n) == s,
    decreases n,
{
    if n > 0 {
        lemma_upto_absorbed(s, n - 1);
    }
}

/// Idempotence of initialization: applying the whole set a second time
/// leaves the store's declarations unchanged, and every declaration of the
/// second run finds its text already present, so nothing is created twice
/// and nothing errors.
pub proof fn lemma_apply_all_idempotent(s: Seq<Seq<char>>)
    ensures
        apply_model(apply_model(s)) == apply_model(s),
        forall|i: int|
            0 <= i < schema_texts().len() ==> apply_upto(apply_model(s), i).contains(
                #[trigger] schema_texts()[i],
            ),
{
    let full = apply_model(s);
    lemma_upto_contains(s, schema_texts().len() as int);
    assert forall|i: int|
        0 <= i < schema_texts().len() implies apply_upto(full, i).contains(
        #[trigger] schema_texts()[i],
    ) by {
        lemma_upto_absorbed(full, i);
    }
    lemma_upto_absorbed(full, schema_texts().len() as int);
}

/// The declarations of the set, in application order, with their exact
/// engine texts.
pub fn schema_statements() -> (r: Vec<SchemaDecl>)
    ensures
        r@.len() == schema_texts().len(),
        forall|i: int| 0 <= i < r@.len() ==> (#[trigger] r@[i]).text@ == schema_texts()[i],
        forall|i: int|
            0 <= i < r@.len() ==> (#[trigger] r@[i]).kind == (if i < constraint_count() {
                DeclKind::Constraint
            } else {
                DeclKind::Index
            }),
{
    let mut v: Vec<SchemaDecl> = Vec::new();
    v.push(SchemaDecl {
        kind: DeclKind::Constraint,
        text: "CREATE CONSTRAINT project_name_unique IF NOT EXISTS FOR (p:Project) REQUIRE p.name IS UNIQUE".to_owned(),
    });
    v.push(SchemaDecl {
        kind: DeclKind::Constraint,
        text: "CREATE CONSTRAINT repository_url_unique IF NOT EXISTS FOR (r:Repository) REQUIRE r.url IS UNIQUE".to_owned(),
    });
    v.push(SchemaDecl {
        kind: DeclKind::Constraint,
        text: "CREATE CONSTRAINT branch_name_repo_unique IF NOT EXISTS FOR (b:Branch) REQUIRE (b.name, b.repository_id) IS UNIQUE".to_owned(),
    });
    v.push(SchemaDecl {
        kind: DeclKind::Constraint,
        text: "CREATE CONSTRAINT ticket_id_unique IF NOT EXISTS FOR (t:Ticket) REQUIRE t.ticket_id IS UNIQUE".to_owned(),
    });
    v.push(SchemaDecl {
        kind: DeclKind::Constraint,
        text: "CREATE CONSTRAINT dashboard_url_unique IF NOT EXISTS FOR (d:Dashboard) REQUIRE d.url IS UNIQUE".to_owned(),
    });
    v.push(SchemaDecl {
        kind: DeclKind::Constraint,
        text: "CREATE CONSTRAINT notebook_url_unique IF NOT EXISTS FOR (n:Notebook) REQUIRE n.url IS UNIQUE".to_owned(),
    });
    v.push(SchemaDecl {
        kind: DeclKind::Constraint,
        text: "CREATE CONSTRAINT pipeline_name_unique IF NOT EXISTS FOR (c:CIPipeline) REQUIRE (c.name, c.url) IS UNIQUE".to_owned(),
    });
    v.push(SchemaDecl {
        kind: DeclKind::Index,
        text: "CREATE INDEX project_created_at IF NOT EXISTS FOR (p:Project) ON (p.created_at)".to_owned(),
    });
    v.push(SchemaDecl {
        kind: DeclKind::Index,
        text: "CREATE INDEX repository_local_path IF NOT EXISTS FOR (r:Repository) ON (r.local_path)".to_owned(),
    });
    v.push(SchemaDecl {
        kind: DeclKind::Index,
        text: "CREATE INDEX branch_is_working IF NOT EXISTS FOR (b:Branch) ON (b.is_working_branch)".to_owned(),
    });
    v.push(SchemaDecl {
        kind: DeclKind::Index,
        text: "CREATE INDEX pr_status IF NOT EXISTS FOR (pr:PullRequest) ON (pr.status)".to_owned(),
    });
    v.push(SchemaDecl {
        kind: DeclKind::Index,
        text: "CREATE INDEX pr_number IF NOT EXISTS FOR (pr:PullRequest) ON (pr.number)".to_owned(),
    });
    v.push(SchemaDecl {
        kind: DeclKind::Index,
        text: "CREATE INDEX ticket_status IF NOT EXISTS FOR (t:Ticket) ON (t.status)".to_owned(),
    });
    v.push(SchemaDecl {
        kind: DeclKind::Index,
        text: "CREATE INDEX ticket_type IF NOT EXISTS FOR (t:Ticket) ON (t.ticket_type)".to_owned(),
    });
    v
}

/// Whether the store already holds a declaration text.
fn applied_contains(store: &GraphStore, t: &String) -> (r: bool)
    ensures
        r == store.applied_texts().contains(t@),
{
    let n = store.schema_applied.len();
    let mut k: usize = 0;
    while k < n
        invariant
            n == store.schema_applied@.len(),
            0 <= k <= n,
            forall|j: int| 0 <= j < k ==> store.applied_texts()[j] != t@,
        decreases n - k,
    {
        let s = &store.schema_applied[k];
        if crate::models::str_eq(s.as_str(), t.as_str()) {
            proof {
                assert(store.applied_texts()[k as int] == t@);
            }
            return true;
        }
        k += 1;
    }
    false
}

/// Applies the whole constraint/index set to the store, once per
/// declaration, skipping what is already present, and reports per
/// declaration whether it was created now.  Nothing is created twice, and a
/// second run creates nothing at all.
pub fn apply_all(store: &mut GraphStore) -> (report: Vec<ApplyOutcome>)
    requires
        old(store).wf(),
    ensures
        final(store).wf(),
        final(store).entities@ == old(store).entities@,
        final(store).edges@ == old(store).edges@,
        final(store).applied_texts() == apply_model(old(store).applied_texts()),
        report@.len() == schema_texts().len(),
        forall|i: int| 0 <= i < report@.len() ==> (#[trigger] report@[i]).text@ == schema_texts()[i],
        forall|i: int|
            0 <= i < report@.len() ==> (#[trigger] report@[i]).created == !apply_upto(
                old(store).applied_texts(),
                i,
            ).contains(schema_texts()[i]),
{
    let stmts = schema_statements();
    let n = stmts.len();
    let mut report: Vec<ApplyOutcome> = Vec::new();
    let mut i: usize = 0;
    while i < n
        invariant
            n == stmts@.len(),
            stmts@.len() == schema_texts().len(),
            forall|j: int| 0 <= j < n ==> (#[trigger] stmts@[j]).text@ == schema_texts()[j],
            0 <= i <= n,
            store.wf(),
            store.entities@ == old(store).entities@,
            store.edges@ == old(store).edges@,
            store.applied_texts() == apply_upto(old(store).applied_texts(), i as int),
            report@.len() == i,
            forall|j: int| 0 <= j < i ==> (#[trigger] report@[j]).text@ == schema_texts()[j],
            forall|j: int|
                0 <= j < i ==> (#[trigger] report@[j]).created == !apply_upto(
                    old(store).applied_texts(),
                    j,
                ).contains(schema_texts()[j]),
        decreases n - i,
    {
        let t = &stmts[i].text;
        let created = !applied_contains(store, t);
        let ghost applied_before = store.applied_texts();
        if created {
            store.schema_applied.push(t.clone());
            proof {
                assert(store.applied_texts() =~= applied_before.push(t@));
            }
        }
        report.push(ApplyOutcome { text: t.clone(), created });
        i += 1;
    }
    report
}

} // verus!
