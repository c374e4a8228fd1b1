//! The user's settings: the model providers, which one is selected, and the
//! named remote tool servers. Reading and writing the settings file is the
//! caller's.

use vstd::prelude::*;
use crate::mcp::{config_text, McpConfig};
use crate::text::digits;

verus! {

/// How tool calls are requested from the model.
#[derive(Clone, Copy, Debug, PartialEq, Eq, Structural)]
pub enum ToolCallMethod {
    Auto,
    FunctionCall,
    FunctionCallRequired,
    StructuredOutput,
    Parsing,
}

/// One configured model provider.
#[derive(Clone, Debug)]
pub struct ProviderConfig {
    pub provider: String,
    pub env_vars: Vec<(String, String)>,
    pub model: String,
    pub tool_method: ToolCallMethod,
}

/// The settings.
pub struct KrokitConfig {
    pub providers: Vec<ProviderConfig>,
    pub selected_provider: usize,
    pub mcp_configs: Vec<(String, McpConfig)>,
}

/// `env` holds the pair `(k, v)`.
pub open spec fn has_pair(env: Seq<(String, String)>, k: Seq<char>, v: Seq<char>) -> bool {
    exists|i: int| 0 <= i < env.len() && (#[trigger] env[i]).0@ == k && env[i].1@ == v
}

/// Two variable sets with the same pairs, whatever their order.
pub open spec fn same_env(a: Seq<(String, String)>, b: Seq<(String, String)>) -> bool {
    &&& forall|i: int| 0 <= i < a.len() ==> has_pair(b, (#[trigger] a[i]).0@, a[i].1@)
    &&& forall|i: int| 0 <= i < b.len() ==> has_pair(a, (#[trigger] b[i]).0@, b[i].1@)
}

pub open spec fn same_provider(p: ProviderConfig, name: Seq<char>, env: Seq<(String, String)>, model: Seq<char>) -> bool {
    p.provider@ == name && same_env(p.env_vars@, env) && p.model@ == model
}

/// A server of that name is configured.
pub open spec fn has_server(v: Seq<(String, McpConfig)>, name: Seq<char>) -> bool {
    exists|i: int| 0 <= i < v.len() && (#[trigger] v[i]).0@ == name
}

pub open spec fn bounds_text(index: int, len: int) -> Seq<char> {
    "Provider index "@ + digits(index as nat) + " out of bounds (have "@ + digits(len as nat) + " providers)"@
}

fn pair_in(env: &Vec<(String, String)>, k: &String, v: &String) -> (r: bool)
    ensures
        r == has_pair(env@, k@, v@),
{
    let mut i: usize = 0;
    while i < env.len()
        invariant
            i <= env@.len(),
            forall|j: int| 0 <= j < i ==> !((#[trigger] env@[j]).0@ == k@ && env@[j].1@ == v@),
        decreases env@.len() - i,
    {
        if env[i].0 == *k && env[i].1 == *v {
            assert(env@[i as int].0@ == k@ && env@[i as int].1@ == v@);
            return true;
        }
        i += 1;
    }
    false
}

fn included(a: &Vec<(String, String)>, b: &Vec<(String, String)>) -> (r: bool)
    ensures
        r == forall|i: int| 0 <= i < a@.len() ==> has_pair(b@, (#[trigger] a@[i]).0@, a@[i].1@),
{
    let mut i: usize = 0;
    while i < a.len()
        invariant
            i <= a@.len(),
            forall|j: int| 0 <= j < i ==> has_pair(b@, (#[trigger] a@[j]).0@, a@[j].1@),
        decreases a@.len() - i,
    {
        if !pair_in(b, &a[i].0, &a[i].1) {
            return false;
        }
        i += 1;
    }
    true
}

fn bounds_message(index: usize, len: usize) -> (r: String)
    ensures
        r@ == bounds_text(index as int, len as int),
{
    let mut s = String::from_str("Provider index ");
    let i = crate::text::count_to_text(index as u64);
    s.append(i.as_str());
    s.append(" out of bounds (have ");
    let n = crate::text::count_to_text(len as u64);
    s.append(n.as_str());
    s.append(" providers)");
    s
}

impl KrokitConfig {
    /// One provider by default: anonymous access to a hosted Qwen3 model.
    pub fn new_default() -> (r: KrokitConfig)
        ensures
            r.providers@.len() == 1,
            r.providers@[0].provider@ == "ovhcloud"@,
            r.providers@[0].model@ == "Qwen3-32B"@,
            r.providers@[0].tool_method == ToolCallMethod::FunctionCall,
            r.selected_provider == 0,
            r.mcp_configs@.len() == 0,
    {
        let mut env_vars: Vec<(String, String)> = Vec::new();
        env_vars.push((
            String::from_str("OVH_BASE_URL"),
            String::from_str("https://qwen-3-32b.endpoints.kepler.ai.cloud.ovh.net/api/openai_compat/v1"),
        ));
        let mut providers: Vec<ProviderConfig> = Vec::new();
        providers.push(ProviderConfig {
            provider: String::from_str("ovhcloud"),
            env_vars,
            model: String::from_str("Qwen3-32B"),
            tool_method: ToolCallMethod::FunctionCall,
        });
        KrokitConfig { providers, selected_provider: 0, mcp_configs: Vec::new() }
    }

    /// Adds a provider that calls tools by function calling; its index.
    pub fn add_provider(&mut self, provider: String, env_vars: Vec<(String, String)>, model: String) -> (r: usize)
        requires
            old(self).providers@.len() < usize::MAX,
        ensures
            r == old(self).providers@.len(),
            final(self).providers@.len() == old(self).providers@.len() + 1,
            final(self).providers@.subrange(0, r as int) == old(self).providers@,
            final(self).providers@[r as int].provider == provider,
            final(self).providers@[r as int].env_vars == env_vars,
            final(self).providers@[r as int].model == model,
            final(self).providers@[r as int].tool_method == ToolCallMethod::FunctionCall,
            final(self).selected_provider == old(self).selected_provider,
    {
        self.providers.push(ProviderConfig { provider, env_vars, model, tool_method: ToolCallMethod::FunctionCall });
        proof {
            assert(self.providers@.subrange(0, old(self).providers@.len() as int) =~= old(self).providers@);
        }
        self.providers.len() - 1
    }

    /// Whether a provider with this name, these variables and this model is
    /// already configured.
    pub fn is_duplicate_config(&self, provider_name: &str, env_vars: &Vec<(String, String)>, model: &str) -> (r: bool)
        ensures
            r == exists|i: int| 0 <= i < self.providers@.len()
                && same_provider(#[trigger] self.providers@[i], provider_name@, env_vars@, model@),
    {
        let name = String::from_str(provider_name);
        let m = String::from_str(model);
        let mut i: usize = 0;
        while i < self.providers.len()
            invariant
                i <= self.providers@.len(),
                name@ == provider_name@,
                m@ == model@,
                forall|j: int| 0 <= j < i ==> !same_provider(#[trigger] self.providers@[j], provider_name@, env_vars@, model@),
            decreases self.providers@.len() - i,
        {
            let p = &self.providers[i];
            if p.provider == name && p.model == m && included(&p.env_vars, env_vars) && included(env_vars, &p.env_vars) {
                assert(same_provider(self.providers@[i as int], provider_name@, env_vars@, model@));
                return true;
            }
            i += 1;
        }
        false
    }

    pub fn get_selected_provider(&self) -> (r: Option<&ProviderConfig>)
        ensures
            self.selected_provider < self.providers@.len() ==> r == Some(&self.providers@[self.selected_provider as int]),
            self.selected_provider >= self.providers@.len() ==> r is None,
    {
        if self.selected_provider < self.providers.len() {
            Some(&self.providers[self.selected_provider])
        } else {
            None
        }
    }

    pub fn set_selected_provider(&mut self, index: usize) -> (r: Result<(), String>)
        ensures
            index < old(self).providers@.len() ==> r is Ok && final(self).selected_provider == index,
            index >= old(self).providers@.len() ==> (r matches Err(e)
                && e@ == bounds_text(index as int, old(self).providers@.len() as int)
                && final(self).selected_provider == old(self).selected_provider),
            final(self).providers == old(self).providers,
    {
        if index < self.providers.len() {
            self.selected_provider = index;
            Ok(())
        } else {
            Err(bounds_message(index, self.providers.len()))
        }
    }

    /// Resets a selection that points past the providers to the first.
    pub fn normalize_selection(&mut self)
        ensures
            final(self).providers == old(self).providers,
            final(self).selected_provider == (if old(self).selected_provider >= old(self).providers@.len() {
                0
            } else {
                old(self).selected_provider
            }),
    {
        if self.selected_provider >= self.providers.len() {
            self.selected_provider = 0;
        }
    }

    /// Removes a provider; the last one cannot go. The selection keeps
    /// pointing at the same provider where it can, else at the last one.
    pub fn remove_provider(&mut self, index: usize) -> (r: Result<ProviderConfig, String>)
        ensures
            index >= old(self).providers@.len() ==> (r matches Err(e)
                && e@ == bounds_text(index as int, old(self).providers@.len() as int)
                && final(self).providers == old(self).providers),
            index < old(self).providers@.len() && old(self).providers@.len() == 1 ==> (r matches Err(e)
                && e@ == "Cannot remove the last provider"@ && final(self).providers == old(self).providers),
            index < old(self).providers@.len() && old(self).providers@.len() > 1 ==> {
                &&& r matches Ok(p) && p == old(self).providers@[index as int]
                &&& final(self).providers@ == old(self).providers@.remove(index as int)
                &&& final(self).selected_provider == (if old(self).selected_provider >= final(self).providers@.len() {
                    final(self).providers@.len() - 1
                } else if old(self).selected_provider > index {
                    old(self).selected_provider - 1
                } else {
                    old(self).selected_provider as int
                })
            },
    {
        if index >= self.providers.len() {
            return Err(bounds_message(index, self.providers.len()));
        }
        if self.providers.len() == 1 {
            return Err(String::from_str("Cannot remove the last provider"));
        }
        let removed = self.providers.remove(index);
        if self.selected_provider >= self.providers.len() {
            self.selected_provider = self.providers.len() - 1;
        } else if self.selected_provider > index {
            self.selected_provider -= 1;
        }
        Ok(removed)
    }

    /// Each provider with its index, name and model.
    pub fn list_providers(&self) -> (r: Vec<(usize, String, String)>)
        ensures
            r@.len() == self.providers@.len(),
            forall|i: int| 0 <= i < r@.len() ==> (#[trigger] r@[i]).0 == i
                && r@[i].1@ == self.providers@[i].provider@ && r@[i].2@ == self.providers@[i].model@,
    {
        let mut r: Vec<(usize, String, String)> = Vec::new();
        let mut i: usize = 0;
        while i < self.providers.len()
            invariant
                i <= self.providers@.len(),
                r@.len() == i,
                forall|j: int| 0 <= j < i ==> (#[trigger] r@[j]).0 == j
                    && r@[j].1@ == self.providers@[j].provider@ && r@[j].2@ == self.providers@[j].model@,
            decreases self.providers@.len() - i,
        {
            r.push((i, self.providers[i].provider.clone(), self.providers[i].model.clone()));
            i += 1;
        }
        r
    }

    /// The indices of the providers of one kind, in order.
    pub fn find_providers_by_type(&self, provider_type: &str) -> (r: Vec<usize>)
        ensures
            forall|i: int| 0 <= i < r@.len() ==> #[trigger] r@[i] < self.providers@.len()
                && self.providers@[r@[i] as int].provider@ == provider_type@,
            forall|k: int| 0 <= k < self.providers@.len() && self.providers@[k].provider@ == provider_type@
                ==> exists|i: int| 0 <= i < r@.len() && #[trigger] r@[i] == k,
            forall|i: int, j: int| 0 <= i < j < r@.len() ==> #[trigger] r@[i] < #[trigger] r@[j],
    {
        let t = String::from_str(provider_type);
        let mut r: Vec<usize> = Vec::new();
        let mut k: usize = 0;
        while k < self.providers.len()
            invariant
                k <= self.providers@.len(),
                t@ == provider_type@,
                forall|i: int| 0 <= i < r@.len() ==> #[trigger] r@[i] < k
                    && self.providers@[r@[i] as int].provider@ == provider_type@,
                forall|m: int| 0 <= m < k && self.providers@[m].provider@ == provider_type@
                    ==> exists|i: int| 0 <= i < r@.len() && #[trigger] r@[i] == m,
                forall|i: int, j: int| 0 <= i < j < r@.len() ==> #[trigger] r@[i] < #[trigger] r@[j],
            decreases self.providers@.len() - k,
        {
            if self.providers[k].provider == t {
                let ghost before = r@;
                r.push(k);
                proof {
                    assert forall|m: int| 0 <= m < k + 1 && self.providers@[m].provider@ == provider_type@
                        implies exists|i: int| 0 <= i < r@.len() && #[trigger] r@[i] == m by {
                        if m == k {
                            assert(r@[before.len() as int] == m);
                        } else {
                            let i = choose|i: int| 0 <= i < before.len() && #[trigger] before[i] == m;
                            assert(r@[i] == m);
                        }
                    }
                }
            }
            k += 1;
        }
        r
    }

    fn server_index(&self, name: &String) -> (r: Option<usize>)
        ensures
            match r {
                Some(i) => i < self.mcp_configs@.len() && self.mcp_configs@[i as int].0@ == name@,
                None => !has_server(self.mcp_configs@, name@),
            },
    {
        let mut i: usize = 0;
        while i < self.mcp_configs.len()
            invariant
                i <= self.mcp_configs@.len(),
                forall|j: int| 0 <= j < i ==> (#[trigger] self.mcp_configs@[j]).0@ != name@,
            decreases self.mcp_configs@.len() - i,
        {
            if self.mcp_configs[i].0 == *name {
                return Some(i);
            }
            i += 1;
        }
        None
    }

    /// Names a server; a server already of that name is replaced and
    /// returned.
    pub fn add_mcp_config(&mut self, name: String, config: McpConfig) -> (r: Option<McpConfig>)
        ensures
            has_server(final(self).mcp_configs@, name@),
            r is Some <==> has_server(old(self).mcp_configs@, name@),
            forall|n: Seq<char>| #[trigger] has_server(old(self).mcp_configs@, n) ==> has_server(final(self).mcp_configs@, n),
            final(self).providers == old(self).providers,
    {
        match self.server_index(&name) {
            Some(i) => {
                let ghost before = self.mcp_configs@;
                let (_, previous) = self.mcp_configs.remove(i);
                self.mcp_configs.insert(i, (name, config));
                proof {
                    assert(self.mcp_configs@[i as int].0@ == name@);
                    assert forall|n: Seq<char>| #[trigger] has_server(before, n) implies has_server(self.mcp_configs@, n) by {
                        let j = choose|j: int| 0 <= j < before.len() && (#[trigger] before[j]).0@ == n;
                        if j == i {
                            assert(self.mcp_configs@[i as int].0@ == n);
                        } else {
                            assert(self.mcp_configs@[j] == before[j]);
                        }
                    }
                }
                Some(previous)
            }
            None => {
                let ghost before = self.mcp_configs@;
                self.mcp_configs.push((name, config));
                proof {
                    assert(self.mcp_configs@[before.len() as int].0@ == name@);
                    assert forall|n: Seq<char>| #[trigger] has_server(before, n) implies has_server(self.mcp_configs@, n) by {
                        let j = choose|j: int| 0 <= j < before.len() && (#[trigger] before[j]).0@ == n;
                        assert(self.mcp_configs@[j] == before[j]);
                    }
                }
                None
            }
        }
    }

    /// Forgets the first server of that name, and returns it.
    pub fn remove_mcp_config(&mut self, name: &str) -> (r: Option<McpConfig>)
        ensures
            r is Some <==> has_server(old(self).mcp_configs@, name@),
            r is None ==> final(self).mcp_configs == old(self).mcp_configs,
            r is Some ==> final(self).mcp_configs@.len() == old(self).mcp_configs@.len() - 1,
            final(self).providers == old(self).providers,
    {
        let n = String::from_str(name);
        match self.server_index(&n) {
            Some(i) => {
                let (_, config) = self.mcp_configs.remove(i);
                Some(config)
            }
            None => None,
        }
    }

    pub fn get_mcp_config(&self, name: &str) -> (r: Option<&McpConfig>)
        ensures
            r is Some <==> has_server(self.mcp_configs@, name@),
            r matches Some(c) ==> exists|i: int| 0 <= i < self.mcp_configs@.len()
                && (#[trigger] self.mcp_configs@[i]).0@ == name@ && self.mcp_configs@[i].1 == *c,
    {
        let n = String::from_str(name);
        match self.server_index(&n) {
            Some(i) => Some(&self.mcp_configs[i].1),
            None => None,
        }
    }

    pub fn has_mcp_config(&self, name: &str) -> (r: bool)
        ensures
            r == has_server(self.mcp_configs@, name@),
    {
        let n = String::from_str(name);
        self.server_index(&n).is_some()
    }

    /// Each server's name with a one-line description.
    pub fn list_mcp_configs(&self) -> (r: Vec<(String, String)>)
        ensures
            r@.len() == self.mcp_configs@.len(),
            forall|i: int| 0 <= i < r@.len() ==> (#[trigger] r@[i]).0@ == self.mcp_configs@[i].0@
                && r@[i].1@ == config_text(self.mcp_configs@[i].1),
    {
        let mut r: Vec<(String, String)> = Vec::new();
        let mut i: usize = 0;
        while i < self.mcp_configs.len()
            invariant
                i <= self.mcp_configs@.len(),
                r@.len() == i,
                forall|j: int| 0 <= j < i ==> (#[trigger] r@[j]).0@ == self.mcp_configs@[j].0@
                    && r@[j].1@ == config_text(self.mcp_configs@[j].1),
            decreases self.mcp_configs@.len() - i,
        {
            r.push((self.mcp_configs[i].0.clone(), self.mcp_configs[i].1.describe()));
            i += 1;
        }
        r
    }
}

} // verus!
