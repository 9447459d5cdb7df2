//! The operator's registry of environments and workspaces.

use vstd::prelude::*;

use crate::domain::error::{ErrorBody, ErrorCode};
use crate::domain::ids::WorkspaceId;
use crate::domain::profile::Profile;
use crate::policy::environment::{Environment, EnvironmentKind, DEFAULT_ENVIRONMENT_ID};
use crate::policy::permission::NetworkAxis;
use crate::policy::workspace::Workspace;
use crate::text::{concat2, concat3, str_eq};

verus! {

/// The map a sequence denotes when each element is stored under `key`;
/// a later element wins over an earlier one with the same key.
pub open spec fn keyed_map<T>(s: Seq<T>, key: spec_fn(T) -> Seq<char>) -> Map<Seq<char>, T>
    decreases s.len(),
{
    if s.len() == 0 {
        Map::empty()
    } else {
        keyed_map(s.drop_last(), key).insert(key(s.last()), s.last())
    }
}

/// No two elements share a key.
pub open spec fn keys_unique<T>(s: Seq<T>, key: spec_fn(T) -> Seq<char>) -> bool {
    forall|i: int, j: int| 0 <= i < j < s.len() ==> key(#[trigger] s[i]) != key(#[trigger] s[j])
}

pub open spec fn workspace_key() -> spec_fn(Workspace) -> Seq<char> {
    |w: Workspace| w.id.0@
}

pub open spec fn environment_key() -> spec_fn(Environment) -> Seq<char> {
    |e: Environment| e.id@
}

proof fn lemma_keyed_map_dom<T>(s: Seq<T>, key: spec_fn(T) -> Seq<char>, k: Seq<char>)
    ensures
        keyed_map(s, key).contains_key(k) <==> exists|i: int| 0 <= i < s.len() && key(#[trigger] s[i]) == k,
    decreases s.len(),
{
    if s.len() > 0 {
        lemma_keyed_map_dom(s.drop_last(), key, k);
        if keyed_map(s, key).contains_key(k) {
            if key(s.last()) == k {
                assert(key(s[s.len() - 1]) == k);
            } else {
                let i = choose|i: int| 0 <= i < s.drop_last().len() && key(#[trigger] s.drop_last()[i]) == k;
                assert(key(s[i]) == k);
            }
        }
        if exists|i: int| 0 <= i < s.len() && key(#[trigger] s[i]) == k {
            let i = choose|i: int| 0 <= i < s.len() && key(#[trigger] s[i]) == k;
            if i < s.len() - 1 {
                assert(key(s.drop_last()[i]) == k);
            }
        }
    }
}

proof fn lemma_keyed_map_value<T>(s: Seq<T>, key: spec_fn(T) -> Seq<char>, i: int)
    requires
        keys_unique(s, key),
        0 <= i < s.len(),
    ensures
        keyed_map(s, key).contains_key(key(s[i])),
        keyed_map(s, key)[key(s[i])] == s[i],
    decreases s.len(),
{
    if i < s.len() - 1 {
        assert(keys_unique(s.drop_last(), key)) by {
            assert forall|a: int, b: int| 0 <= a < b < s.drop_last().len() implies key(
                #[trigger] s.drop_last()[a],
            ) != key(#[trigger] s.drop_last()[b]) by {
                assert(s.drop_last()[a] == s[a]);
                assert(s.drop_last()[b] == s[b]);
            }
        }
        lemma_keyed_map_value(s.drop_last(), key, i);
        assert(s.drop_last()[i] == s[i]);
        assert(key(s[i]) != key(s[s.len() - 1]));
    }
}

proof fn lemma_keyed_map_update<T>(s: Seq<T>, key: spec_fn(T) -> Seq<char>, i: int, x: T)
    requires
        keys_unique(s, key),
        0 <= i < s.len(),
        key(x) == key(s[i]),
    ensures
        keyed_map(s.update(i, x), key) == keyed_map(s, key).insert(key(x), x),
        keys_unique(s.update(i, x), key),
    decreases s.len(),
{
    let t = s.update(i, x);
    assert forall|a: int, b: int| 0 <= a < b < t.len() implies key(#[trigger] t[a]) != key(
        #[trigger] t[b],
    ) by {
        if a == i {
            assert(key(s[i]) != key(s[b]));
        } else if b == i {
            assert(key(s[a]) != key(s[i]));
        } else {
            assert(key(s[a]) != key(s[b]));
        }
    }
    if i == s.len() - 1 {
        assert(t.drop_last() =~= s.drop_last());
        assert(keyed_map(t, key) =~= keyed_map(s, key).insert(key(x), x));
    } else {
        let d = s.drop_last();
        assert(keys_unique(d, key)) by {
            assert forall|a: int, b: int| 0 <= a < b < d.len() implies key(#[trigger] d[a]) != key(
                #[trigger] d[b],
            ) by {
                assert(d[a] == s[a]);
                assert(d[b] == s[b]);
            }
        }
        assert(d[i] == s[i]);
        lemma_keyed_map_update(d, key, i, x);
        assert(t.drop_last() =~= d.update(i, x));
        assert(t.last() == s.last());
        assert(key(s.last()) != key(x)) by {
            assert(key(s[i]) != key(s[s.len() - 1]));
        }
        assert(keyed_map(t, key) =~= keyed_map(s, key).insert(key(x), x));
    }
}

proof fn lemma_keyed_map_push<T>(s: Seq<T>, key: spec_fn(T) -> Seq<char>, x: T)
    requires
        keys_unique(s, key),
        forall|i: int| 0 <= i < s.len() ==> key(#[trigger] s[i]) != key(x),
    ensures
        keyed_map(s.push(x), key) == keyed_map(s, key).insert(key(x), x),
        keys_unique(s.push(x), key),
{
    let t = s.push(x);
    assert(t.drop_last() =~= s);
    assert forall|a: int, b: int| 0 <= a < b < t.len() implies key(#[trigger] t[a]) != key(
        #[trigger] t[b],
    ) by {
        assert(t[a] == s[a]);
        if b < s.len() {
            assert(t[b] == s[b]);
        }
    }
}

/// One `environments` entry of the operator configuration.
#[derive(Debug, Clone)]
pub struct EnvironmentEntry {
    pub id: String,
    pub kind: EnvironmentKind,
}

/// One `workspaces` entry of the operator configuration.
#[derive(Debug, Clone)]
pub struct WorkspaceEntry {
    pub id: String,
    pub root: String,
    pub profile: Profile,
    pub environment: Option<String>,
    pub network: NetworkAxis,
}

/// The environments and workspaces the operator registered. The model can
/// look workspaces up; it cannot add them.
#[derive(Debug)]
pub struct Registry {
    environments: Vec<Environment>,
    workspaces: Vec<Workspace>,
}

impl Registry {
    /// Ids are unique among environments and among workspaces.
    pub closed spec fn wf(self) -> bool {
        &&& keys_unique(self.environments@, environment_key())
        &&& keys_unique(self.workspaces@, workspace_key())
    }

    /// Workspaces by id.
    pub closed spec fn workspace_map(self) -> Map<Seq<char>, Workspace> {
        keyed_map(self.workspaces@, workspace_key())
    }

    /// Environments by id.
    pub closed spec fn environment_map(self) -> Map<Seq<char>, Environment> {
        keyed_map(self.environments@, environment_key())
    }

    /// Only the local host environment, and no workspace.
    pub fn new() -> (r: Self)
        ensures
            r.wf(),
            r.workspace_map() == Map::<Seq<char>, Workspace>::empty(),
            r.environment_map().dom() == Set::<Seq<char>>::empty().insert(DEFAULT_ENVIRONMENT_ID@),
            r.environment_map()[DEFAULT_ENVIRONMENT_ID@].kind == EnvironmentKind::Host,
            r.environment_map()[DEFAULT_ENVIRONMENT_ID@].id@ == DEFAULT_ENVIRONMENT_ID@,
    {
        let local = Environment::local_host();
        let environments = vec![local];
        let ghost es = environments@;
        proof {
            assert(es.drop_last() =~= Seq::<Environment>::empty());
            assert(es.last() == local);
            assert(keyed_map(es.drop_last(), environment_key()) == Map::<Seq<char>, Environment>::empty());
            assert(environment_key()(local) == local.id@);
            assert(keyed_map(es, environment_key()) == Map::<Seq<char>, Environment>::empty().insert(
                local.id@,
                local,
            ));
            assert(keyed_map(es, environment_key()).dom() =~= Set::<Seq<char>>::empty().insert(
                DEFAULT_ENVIRONMENT_ID@,
            ));
        }
        Registry { environments, workspaces: Vec::new() }
    }

    /// Registers `workspace` under its id, replacing any earlier one.
    pub fn insert(&mut self, workspace: Workspace)
        requires
            old(self).wf(),
        ensures
            final(self).wf(),
            final(self).workspace_map() == old(self).workspace_map().insert(
                workspace.id.0@,
                workspace,
            ),
            final(self).environment_map() == old(self).environment_map(),
    {
        let mut i: usize = 0;
        while i < self.workspaces.len()
            invariant
                i <= self.workspaces@.len(),
                keys_unique(self.workspaces@, workspace_key()),
                *self == *old(self),
                self.wf(),
                forall|j: int| 0 <= j < i ==> (#[trigger] self.workspaces@[j]).id.0@ != workspace.id.0@,
            decreases self.workspaces@.len() - i,
        {
            if str_eq(self.workspaces[i].id.0.as_str(), workspace.id.0.as_str()) {
                let ghost old_ws = self.workspaces@;
                proof {
                    lemma_keyed_map_update(old_ws, workspace_key(), i as int, workspace);
                }
                self.workspaces.set(i, workspace);
                return;
            }
            i = i + 1;
        }
        let ghost old_ws = self.workspaces@;
        proof {
            lemma_keyed_map_push(old_ws, workspace_key(), workspace);
        }
        self.workspaces.push(workspace);
    }

    /// Registers `environment` under its id, replacing any earlier one.
    pub fn insert_environment(&mut self, environment: Environment)
        requires
            old(self).wf(),
        ensures
            final(self).wf(),
            final(self).environment_map() == old(self).environment_map().insert(
                environment.id@,
                environment,
            ),
            final(self).workspace_map() == old(self).workspace_map(),
    {
        let mut i: usize = 0;
        while i < self.environments.len()
            invariant
                i <= self.environments@.len(),
                keys_unique(self.environments@, environment_key()),
                *self == *old(self),
                self.wf(),
                forall|j: int| 0 <= j < i ==> (#[trigger] self.environments@[j]).id@ != environment.id@,
            decreases self.environments@.len() - i,
        {
            if str_eq(self.environments[i].id.as_str(), environment.id.as_str()) {
                let ghost old_es = self.environments@;
                proof {
                    lemma_keyed_map_update(old_es, environment_key(), i as int, environment);
                }
                self.environments.set(i, environment);
                return;
            }
            i = i + 1;
        }
        let ghost old_es = self.environments@;
        proof {
            lemma_keyed_map_push(old_es, environment_key(), environment);
        }
        self.environments.push(environment);
    }

    /// The workspace registered under `id`.
    pub fn get(&self, id: &str) -> (r: Result<&Workspace, ErrorBody>)
        requires
            self.wf(),
        ensures
            match r {
                Ok(w) => self.workspace_map().contains_key(id@) && *w == self.workspace_map()[id@]
                    && w.id.0@ == id@,
                Err(e) => !self.workspace_map().contains_key(id@) && e.code
                    == ErrorCode::WorkspaceNotFound && e.message@ == "unknown workspace_id `"@
                    + id@ + "`"@ && e.operation_id is None,
            },
    {
        let mut i: usize = 0;
        while i < self.workspaces.len()
            invariant
                i <= self.workspaces@.len(),
                keys_unique(self.workspaces@, workspace_key()),
                forall|j: int| 0 <= j < i ==> (#[trigger] self.workspaces@[j]).id.0@ != id@,
            decreases self.workspaces@.len() - i,
        {
            if str_eq(self.workspaces[i].id.0.as_str(), id) {
                proof {
                    lemma_keyed_map_value(self.workspaces@, workspace_key(), i as int);
                }
                return Ok(&self.workspaces[i]);
            }
            i = i + 1;
        }
        proof {
            lemma_keyed_map_dom(self.workspaces@, workspace_key(), id@);
        }
        let m = concat3("unknown workspace_id `", id, "`");
        Err(ErrorBody::new(ErrorCode::WorkspaceNotFound, m.as_str()))
    }

    /// The environment registered under `id`.
    pub fn environment(&self, id: &str) -> (r: Result<&Environment, ErrorBody>)
        requires
            self.wf(),
        ensures
            match r {
                Ok(e) => self.environment_map().contains_key(id@) && *e
                    == self.environment_map()[id@] && e.id@ == id@,
                Err(e) => !self.environment_map().contains_key(id@) && e.code
                    == ErrorCode::Unauthorized && e.message@ == "unknown environment `"@ + id@
                    + "`"@ && e.operation_id is None,
            },
    {
        let mut i: usize = 0;
        while i < self.environments.len()
            invariant
                i <= self.environments@.len(),
                keys_unique(self.environments@, environment_key()),
                forall|j: int| 0 <= j < i ==> (#[trigger] self.environments@[j]).id@ != id@,
            decreases self.environments@.len() - i,
        {
            if str_eq(self.environments[i].id.as_str(), id) {
                proof {
                    lemma_keyed_map_value(self.environments@, environment_key(), i as int);
                }
                return Ok(&self.environments[i]);
            }
            i = i + 1;
        }
        proof {
            lemma_keyed_map_dom(self.environments@, environment_key(), id@);
        }
        let m = concat3("unknown environment `", id, "`");
        Err(ErrorBody::new(ErrorCode::Unauthorized, m.as_str()))
    }

    /// No workspace is registered.
    pub fn is_empty(&self) -> (r: bool)
        requires
            self.wf(),
        ensures
            r == (self.workspace_map() == Map::<Seq<char>, Workspace>::empty()),
    {
        let r = self.workspaces.len() == 0;
        proof {
            if !r {
                lemma_keyed_map_dom(self.workspaces@, workspace_key(), self.workspaces@[0].id.0@);
                assert(self.workspace_map().contains_key(self.workspaces@[0].id.0@));
                assert(!Map::<Seq<char>, Workspace>::empty().contains_key(self.workspaces@[0].id.0@));
            } else {
                assert(self.workspace_map() =~= Map::<Seq<char>, Workspace>::empty());
            }
        }
        r
    }
}

/// Environments after registering `es` in order on top of `base`.
pub open spec fn env_fold(base: Map<Seq<char>, Environment>, es: Seq<EnvironmentEntry>) -> Map<
    Seq<char>,
    Environment,
>
    decreases es.len(),
{
    if es.len() == 0 {
        base
    } else {
        env_fold(base, es.drop_last()).insert(
            es.last().id@,
            Environment { id: es.last().id, kind: es.last().kind },
        )
    }
}

/// The environment id a workspace entry names; `local` when it names none.
pub open spec fn entry_environment(e: WorkspaceEntry) -> Seq<char> {
    match e.environment {
        Some(id) => id@,
        None => DEFAULT_ENVIRONMENT_ID@,
    }
}

/// The workspace an entry registers, given its environment.
pub open spec fn entry_workspace(e: WorkspaceEntry, env: Environment) -> Workspace {
    Workspace {
        id: WorkspaceId(e.id),
        root: e.root,
        profile: e.profile,
        environment_id: env.id,
        environment_kind: env.kind,
        network: e.network,
    }
}

/// Workspaces after registering `ws` in order, or the message of the
/// first entry that is refused: a root that is not absolute, or an
/// environment that is not registered.
pub open spec fn workspace_fold(
    envs: Map<Seq<char>, Environment>,
    base: Map<Seq<char>, Workspace>,
    ws: Seq<WorkspaceEntry>,
) -> Result<Map<Seq<char>, Workspace>, Seq<char>>
    decreases ws.len(),
{
    if ws.len() == 0 {
        Ok(base)
    } else {
        match workspace_fold(envs, base, ws.drop_last()) {
            Err(m) => Err(m),
            Ok(m) => {
                let e = ws.last();
                if e.root@.len() == 0 || e.root@[0] != '/' {
                    Err("workspace `"@ + e.id@ + "` root must be absolute"@)
                } else if !envs.contains_key(entry_environment(e)) {
                    Err("workspace `"@ + e.id@ + "` references unknown environment `"@
                        + entry_environment(e) + "`"@)
                } else {
                    Ok(m.insert(e.id@, entry_workspace(e, envs[entry_environment(e)])))
                }
            },
        }
    }
}

impl Registry {
    /// Registers operator configuration entries: every environment first,
    /// then every workspace in order. A workspace whose root is not
    /// absolute, or that names an unknown environment, refuses the load.
    pub fn load_entries(
        &mut self,
        environments: &Vec<EnvironmentEntry>,
        workspaces: &Vec<WorkspaceEntry>,
    ) -> (r: Result<(), String>)
        requires
            old(self).wf(),
        ensures
            final(self).wf(),
            final(self).environment_map() == env_fold(old(self).environment_map(), environments@),
            match r {
                Ok(_) => workspace_fold(
                    final(self).environment_map(),
                    old(self).workspace_map(),
                    workspaces@,
                ) == Ok::<Map<Seq<char>, Workspace>, Seq<char>>(final(self).workspace_map()),
                Err(e) => workspace_fold(
                    final(self).environment_map(),
                    old(self).workspace_map(),
                    workspaces@,
                ) == Err::<Map<Seq<char>, Workspace>, Seq<char>>(e@),
            },
    {
        let ghost base_env = self.environment_map();
        let ghost base_ws = self.workspace_map();
        let mut i: usize = 0;
        while i < environments.len()
            invariant
                i <= environments@.len(),
                self.wf(),
                self.workspace_map() == base_ws,
                base_ws == old(self).workspace_map(),
                base_env == old(self).environment_map(),
                self.environment_map() == env_fold(base_env, environments@.subrange(0, i as int)),
            decreases environments@.len() - i,
        {
            let e = &environments[i];
            let env = Environment { id: e.id.clone(), kind: e.kind };
            self.insert_environment(env);
            proof {
                assert(environments@.subrange(0, i + 1).drop_last() =~= environments@.subrange(
                    0,
                    i as int,
                ));
            }
            i = i + 1;
        }
        proof {
            assert(environments@.subrange(0, environments@.len() as int) =~= environments@);
        }
        let ghost envs = self.environment_map();
        let mut k: usize = 0;
        while k < workspaces.len()
            invariant
                k <= workspaces@.len(),
                self.wf(),
                self.environment_map() == envs,
                envs == env_fold(old(self).environment_map(), environments@),
                base_ws == old(self).workspace_map(),
                workspace_fold(envs, base_ws, workspaces@.subrange(0, k as int)) == Ok::<
                    Map<Seq<char>, Workspace>,
                    Seq<char>,
                >(self.workspace_map()),
            decreases workspaces@.len() - k,
        {
            let e = &workspaces[k];
            let ghost pre = workspaces@.subrange(0, k as int);
            let ghost next = workspaces@.subrange(0, k + 1);
            proof {
                assert(next.drop_last() =~= pre);
                assert(next.last() == *e);
            }
            let root = crate::text::chars_of(e.root.as_str());
            if root.len() == 0 || root[0] != '/' {
                let m = concat3("workspace `", e.id.as_str(), "` root must be absolute");
                proof {
                    lemma_workspace_fold_err_sticky(envs, base_ws, workspaces@, k + 1);
                }
                return Err(m);
            }
            let env_id: String = match &e.environment {
                Some(id) => id.clone(),
                None => String::from_str(DEFAULT_ENVIRONMENT_ID),
            };
            proof {
                assert(env_id@ == entry_environment(*e));
            }
            let found = match self.environment(env_id.as_str()) {
                Ok(env) => Some((env.id.clone(), env.kind)),
                Err(_) => None,
            };
            match found {
                None => {
                    let head = concat3("workspace `", e.id.as_str(), "` references unknown environment `");
                    let m = concat3(head.as_str(), env_id.as_str(), "`");
                    proof {
                        lemma_workspace_fold_err_sticky(envs, base_ws, workspaces@, k + 1);
                    }
                    return Err(m);
                },
                Some((env_name, env_kind)) => {
                    let w = Workspace {
                        id: WorkspaceId(e.id.clone()),
                        root: e.root.clone(),
                        profile: e.profile,
                        environment_id: env_name,
                        environment_kind: env_kind,
                        network: e.network,
                    };
                    proof {
                        assert(w == entry_workspace(*e, envs[entry_environment(*e)]));
                    }
                    self.insert(w);
                },
            }
            k = k + 1;
        }
        proof {
            assert(workspaces@.subrange(0, workspaces@.len() as int) =~= workspaces@);
        }
        Ok(())
    }

    /// A registry holding the local host environment plus the given
    /// configuration entries.
    pub fn from_entries(
        environments: &Vec<EnvironmentEntry>,
        workspaces: &Vec<WorkspaceEntry>,
    ) -> (r: Result<Registry, String>)
        ensures
            exists|m0: Map<Seq<char>, Environment>|
                #![trigger env_fold(m0, environments@)]
                is_local_only(m0) && match r {
                    Ok(reg) => reg.wf() && reg.environment_map() == env_fold(m0, environments@)
                        && workspace_fold(
                        reg.environment_map(),
                        Map::<Seq<char>, Workspace>::empty(),
                        workspaces@,
                    ) == Ok::<Map<Seq<char>, Workspace>, Seq<char>>(reg.workspace_map()),
                    Err(e) => workspace_fold(
                        env_fold(m0, environments@),
                        Map::<Seq<char>, Workspace>::empty(),
                        workspaces@,
                    ) == Err::<Map<Seq<char>, Workspace>, Seq<char>>(e@),
                },
    {
        let mut reg = Registry::new();
        let ghost m0 = reg.environment_map();
        let res = reg.load_entries(environments, workspaces);
        proof {
            assert(is_local_only(m0));
            assert(env_fold(m0, environments@) == reg.environment_map());
        }
        match res {
            Ok(()) => Ok(reg),
            Err(e) => Err(e),
        }
    }
}

/// An environment map holding only the local host environment.
pub open spec fn is_local_only(m: Map<Seq<char>, Environment>) -> bool {
    &&& m.dom() == Set::<Seq<char>>::empty().insert(DEFAULT_ENVIRONMENT_ID@)
    &&& m[DEFAULT_ENVIRONMENT_ID@].id@ == DEFAULT_ENVIRONMENT_ID@
    &&& m[DEFAULT_ENVIRONMENT_ID@].kind == EnvironmentKind::Host
}

proof fn lemma_workspace_fold_err_sticky(
    envs: Map<Seq<char>, Environment>,
    base: Map<Seq<char>, Workspace>,
    ws: Seq<WorkspaceEntry>,
    k: int,
)
    requires
        0 <= k <= ws.len(),
        workspace_fold(envs, base, ws.subrange(0, k)) is Err,
    ensures
        workspace_fold(envs, base, ws) == workspace_fold(envs, base, ws.subrange(0, k)),
    decreases ws.len() - k,
{
    if k < ws.len() {
        let next = ws.subrange(0, k + 1);
        assert(next.drop_last() =~= ws.subrange(0, k));
        lemma_workspace_fold_err_sticky(envs, base, ws, k + 1);
    } else {
        assert(ws.subrange(0, k) =~= ws);
    }
}

impl Default for Registry {
    fn default() -> (r: Self)
        ensures
            r.wf(),
            r.workspace_map() == Map::<Seq<char>, Workspace>::empty(),
            r.environment_map().dom() == Set::<Seq<char>>::empty().insert(DEFAULT_ENVIRONMENT_ID@),
    {
        Registry::new()
    }
}

} // verus!
