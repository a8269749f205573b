//! The registry of tools: tools that are active (declared, and usually
//! executable), and deferred tools known only by a summary until they are
//! loaded. Executors and loaders are handles the runtime calls.

use vstd::prelude::*;
use vstd::string::StringExecFns;
use crate::error::AgentError;
use crate::keyed::{stored_last, Keyed};
use crate::message::copy_opt;
use crate::tool::types::{FunctionTool, ToolDefinition};

verus! {

/// The summary of a deferred tool: enough to list it, without its schema.
#[derive(Clone, Debug, PartialEq, Eq)]
pub struct DeferredToolMeta {
    pub name: String,
    pub description: Option<String>,
    /// The namespace or source (an MCP server, a plugin group, ...).
    pub namespace: Option<String>,
    /// Extra metadata (JSON text).
    pub metadata: Option<String>,
}

impl DeferredToolMeta {
    /// A summary with only a name.
    pub fn new(name: &str) -> (m: DeferredToolMeta)
        ensures
            m.name@ == name@,
            m.description is None,
            m.namespace is None,
            m.metadata is None,
    {
        DeferredToolMeta { name: String::from_str(name), description: None, namespace: None, metadata: None }
    }

    /// Sets the description.
    pub fn with_description(self, description: &str) -> (m: DeferredToolMeta)
        ensures
            m.name == self.name,
            m.namespace == self.namespace,
            m.metadata == self.metadata,
            m.description is Some && m.description->0@ == description@,
    {
        DeferredToolMeta { description: Some(String::from_str(description)), ..self }
    }

    /// Sets the namespace.
    pub fn with_namespace(self, namespace: &str) -> (m: DeferredToolMeta)
        ensures
            m.name == self.name,
            m.description == self.description,
            m.metadata == self.metadata,
            m.namespace is Some && m.namespace->0@ == namespace@,
    {
        DeferredToolMeta { namespace: Some(String::from_str(namespace)), ..self }
    }

    /// Sets the metadata (JSON text).
    pub fn with_metadata(self, metadata: String) -> (m: DeferredToolMeta)
        ensures
            m == (DeferredToolMeta { metadata: Some(metadata), ..self }),
    {
        DeferredToolMeta { metadata: Some(metadata), ..self }
    }

    /// An exact copy.
    pub fn duplicate(&self) -> (m: DeferredToolMeta)
        ensures
            m == *self,
    {
        DeferredToolMeta {
            name: self.name.clone(),
            description: copy_opt(&self.description),
            namespace: copy_opt(&self.namespace),
            metadata: copy_opt(&self.metadata),
        }
    }
}

/// A loader backed by an asynchronous closure.
pub struct AsyncDeferredLoader<F> {
    loader: F,
}

impl<F> AsyncDeferredLoader<F> {
    /// The closure.
    pub closed spec fn spec_loader(self) -> F {
        self.loader
    }

    /// Wraps a closure.
    pub fn new(loader: F) -> (l: Self)
        ensures
            l.spec_loader() == loader,
    {
        AsyncDeferredLoader { loader }
    }

    /// The closure.
    pub fn loader(&self) -> (r: &F)
        ensures
            *r == self.spec_loader(),
    {
        &self.loader
    }
}

/// The tools of a session: active ones (declaration and, unless only
/// declared, an executor `E`) and deferred ones (summary and loader `L`).
pub struct ToolRegistry<E, L> {
    active: Keyed<(FunctionTool, Option<E>)>,
    deferred: Keyed<(DeferredToolMeta, L)>,
}

/// The text of the JSON schema of the discovery tool's input.
pub open spec fn discovery_schema_text() -> Seq<char> {
    "{\"properties\":{\"tool_name\":{\"description\":\"需要动态加载或查询详细 Schema 的工具名称\",\"type\":\"string\"}},\"required\":[\"tool_name\"],\"type\":\"object\"}"@
}

impl<E, L> ToolRegistry<E, L> {
    /// The active tool under `name`: its declaration and executor.
    pub closed spec fn active_tool(self, name: Seq<char>) -> Option<(FunctionTool, Option<E>)> {
        self.active.get_spec(name)
    }

    /// The deferred tool under `name`: its summary and loader.
    pub closed spec fn deferred_tool(self, name: Seq<char>) -> Option<(DeferredToolMeta, L)> {
        self.deferred.get_spec(name)
    }

    /// The active entries, in registration order.
    pub closed spec fn active_entries(self) -> Seq<(String, (FunctionTool, Option<E>))> {
        self.active.entries()
    }

    /// The deferred entries, in registration order.
    pub closed spec fn deferred_entries(self) -> Seq<(String, (DeferredToolMeta, L))> {
        self.deferred.entries()
    }

    /// No name is registered twice in the same pool.
    pub closed spec fn wf(self) -> bool {
        self.active.wf() && self.deferred.wf()
    }

    /// An empty registry.
    pub fn new() -> (r: Self)
        ensures
            r.wf(),
            forall|n: Seq<char>| #[trigger] r.active_tool(n) is None,
            forall|n: Seq<char>| #[trigger] r.deferred_tool(n) is None,
    {
        ToolRegistry { active: Keyed::new(), deferred: Keyed::new() }
    }

    /// Registers an executable tool under its declared name.
    pub fn register_tool(&mut self, definition: FunctionTool, executor: E)
        requires
            old(self).wf(),
        ensures
            final(self).wf(),
            final(self).active_tool(definition.name@) == Some((definition, Some(executor))),
            forall|n: Seq<char>| n != definition.name@ ==> #[trigger] final(self).active_tool(n) == old(self).active_tool(n),
            forall|n: Seq<char>| #[trigger] final(self).deferred_tool(n) == old(self).deferred_tool(n),
            stored_last(old(self).active_entries(), final(self).active_entries(), definition.name@, (definition, Some(executor))),
            final(self).deferred_entries() == old(self).deferred_entries(),
    {
        let name = definition.name.clone();
        self.active.insert(name, (definition, Some(executor)));
    }

    /// Registers a declaration without an executor.
    pub fn register_definition_only(&mut self, definition: FunctionTool)
        requires
            old(self).wf(),
        ensures
            final(self).wf(),
            final(self).active_tool(definition.name@) == Some((definition, None::<E>)),
            forall|n: Seq<char>| n != definition.name@ ==> #[trigger] final(self).active_tool(n) == old(self).active_tool(n),
            forall|n: Seq<char>| #[trigger] final(self).deferred_tool(n) == old(self).deferred_tool(n),
            stored_last(old(self).active_entries(), final(self).active_entries(), definition.name@, (definition, None::<E>)),
            final(self).deferred_entries() == old(self).deferred_entries(),
    {
        let name = definition.name.clone();
        self.active.insert(name, (definition, None));
    }

    /// Registers a deferred tool under its summary's name.
    pub fn register_deferred(&mut self, meta: DeferredToolMeta, loader: L)
        requires
            old(self).wf(),
        ensures
            final(self).wf(),
            final(self).deferred_tool(meta.name@) == Some((meta, loader)),
            forall|n: Seq<char>| n != meta.name@ ==> #[trigger] final(self).deferred_tool(n) == old(self).deferred_tool(n),
            forall|n: Seq<char>| #[trigger] final(self).active_tool(n) == old(self).active_tool(n),
            stored_last(old(self).deferred_entries(), final(self).deferred_entries(), meta.name@, (meta, loader)),
            final(self).active_entries() == old(self).active_entries(),
    {
        let name = meta.name.clone();
        self.deferred.insert(name, (meta, loader));
    }

    /// Whether a tool of this name is active.
    pub fn is_active(&self, name: &str) -> (b: bool)
        requires
            self.wf(),
        ensures
            b == (self.active_tool(name@) is Some),
    {
        self.active.contains_key(name)
    }

    /// Whether a deferred tool of this name waits to be loaded.
    pub fn is_deferred(&self, name: &str) -> (b: bool)
        requires
            self.wf(),
        ensures
            b == (self.deferred_tool(name@) is Some),
    {
        self.deferred.contains_key(name)
    }

    /// The declaration of the active tool of this name.
    pub fn active_definition(&self, name: &str) -> (r: Option<FunctionTool>)
        requires
            self.wf(),
        ensures
            match self.active_tool(name@) {
                Some(t) => r == Some(t.0),
                None => r is None,
            },
    {
        match self.active.get(name) {
            Some(entry) => Some(entry.0.duplicate()),
            None => None,
        }
    }

    /// Removes the deferred tool of this name, to load it.
    pub fn take_deferred(&mut self, name: &str) -> (r: Option<(DeferredToolMeta, L)>)
        requires
            old(self).wf(),
        ensures
            final(self).wf(),
            r == old(self).deferred_tool(name@),
            final(self).deferred_tool(name@) is None,
            forall|n: Seq<char>| n != name@ ==> #[trigger] final(self).deferred_tool(n) == old(self).deferred_tool(n),
            forall|n: Seq<char>| #[trigger] final(self).active_tool(n) == old(self).active_tool(n),
    {
        self.deferred.remove(name)
    }

    /// Makes a loaded tool active under the name it was requested by.
    pub fn activate(&mut self, name: &str, definition: FunctionTool, executor: Option<E>)
        requires
            old(self).wf(),
        ensures
            final(self).wf(),
            final(self).active_tool(name@) == Some((definition, executor)),
            forall|n: Seq<char>| n != name@ ==> #[trigger] final(self).active_tool(n) == old(self).active_tool(n),
            forall|n: Seq<char>| #[trigger] final(self).deferred_tool(n) == old(self).deferred_tool(n),
            stored_last(old(self).active_entries(), final(self).active_entries(), name@, (definition, executor)),
            final(self).deferred_entries() == old(self).deferred_entries(),
    {
        self.active.insert(String::from_str(name), (definition, executor));
    }

    /// Whether executing this name must first load its deferred tool: it is
    /// not active and it is deferred.
    pub fn needs_activation(&self, name: &str) -> (b: bool)
        requires
            self.wf(),
        ensures
            b == (self.active_tool(name@) is None && self.deferred_tool(name@) is Some),
    {
        !self.is_active(name) && self.is_deferred(name)
    }

    /// The executor of the active tool of this name: `ToolNotFound` when no
    /// tool of the name is active, `ToolExecutionFailed` when it is only declared.
    pub fn executor_for(&self, name: &str) -> (r: Result<&E, AgentError>)
        requires
            self.wf(),
        ensures
            match self.active_tool(name@) {
                None => r matches Err(AgentError::ToolNotFound(n)) && n@ == name@,
                Some((_, None)) => r matches Err(AgentError::ToolExecutionFailed(n, m))
                    && n@ == name@ && m@ == "该工具仅注册了定义，未配置执行器"@,
                Some((_, Some(e))) => r matches Ok(x) && *x == e,
            },
    {
        match self.active.get(name) {
            None => Err(AgentError::ToolNotFound(String::from_str(name))),
            Some(entry) => match &entry.1 {
                None => Err(AgentError::ToolExecutionFailed(
                    String::from_str(name),
                    String::from_str("该工具仅注册了定义，未配置执行器"),
                )),
                Some(e) => Ok(e),
            },
        }
    }

    /// The declarations of the active tools, in registration order.
    pub fn get_active_definitions(&self) -> (r: Vec<FunctionTool>)
        ensures
            r@ == self.active_entries().map_values(|e: (String, (FunctionTool, Option<E>))| e.1.0),
    {
        let entries = self.active.as_vec();
        let mut r: Vec<FunctionTool> = Vec::new();
        let mut i: usize = 0;
        while i < entries.len()
            invariant
                entries@ == self.active_entries(),
                i <= entries@.len(),
                r@ == entries@.take(i as int).map_values(|e: (String, (FunctionTool, Option<E>))| e.1.0),
            decreases entries@.len() - i,
        {
            r.push(entries[i].1.0.duplicate());
            proof {
                assert(entries@.take(i + 1) == entries@.take(i as int).push(entries@[i as int]));
                assert(entries@.take(i + 1).map_values(|e: (String, (FunctionTool, Option<E>))| e.1.0)
                    =~= entries@.take(i as int).map_values(|e: (String, (FunctionTool, Option<E>))| e.1.0).push(entries@[i as int].1.0));
            }
            i = i + 1;
        }
        proof {
            assert(entries@.take(entries@.len() as int) == entries@);
        }
        r
    }

    /// The summaries of the deferred tools, in registration order.
    pub fn get_deferred_meta(&self) -> (r: Vec<DeferredToolMeta>)
        ensures
            r@ == self.deferred_entries().map_values(|e: (String, (DeferredToolMeta, L))| e.1.0),
    {
        let entries = self.deferred.as_vec();
        let mut r: Vec<DeferredToolMeta> = Vec::new();
        let mut i: usize = 0;
        while i < entries.len()
            invariant
                entries@ == self.deferred_entries(),
                i <= entries@.len(),
                r@ == entries@.take(i as int).map_values(|e: (String, (DeferredToolMeta, L))| e.1.0),
            decreases entries@.len() - i,
        {
            r.push(entries[i].1.0.duplicate());
            proof {
                assert(entries@.take(i + 1) == entries@.take(i as int).push(entries@[i as int]));
                assert(entries@.take(i + 1).map_values(|e: (String, (DeferredToolMeta, L))| e.1.0)
                    =~= entries@.take(i as int).map_values(|e: (String, (DeferredToolMeta, L))| e.1.0).push(entries@[i as int].1.0));
            }
            i = i + 1;
        }
        proof {
            assert(entries@.take(entries@.len() as int) == entries@);
        }
        r
    }

    /// The declarations of the active tools as request declarations.
    pub fn get_all_definitions(&self) -> (r: Vec<ToolDefinition>)
        ensures
            r@ == self.active_entries().map_values(|e: (String, (FunctionTool, Option<E>))| ToolDefinition::Function(e.1.0)),
    {
        let entries = self.active.as_vec();
        let mut r: Vec<ToolDefinition> = Vec::new();
        let mut i: usize = 0;
        while i < entries.len()
            invariant
                entries@ == self.active_entries(),
                i <= entries@.len(),
                r@ == entries@.take(i as int).map_values(|e: (String, (FunctionTool, Option<E>))| ToolDefinition::Function(e.1.0)),
            decreases entries@.len() - i,
        {
            r.push(ToolDefinition::Function(entries[i].1.0.duplicate()));
            proof {
                assert(entries@.take(i + 1) == entries@.take(i as int).push(entries@[i as int]));
                assert(entries@.take(i + 1).map_values(|e: (String, (FunctionTool, Option<E>))| ToolDefinition::Function(e.1.0))
                    =~= entries@.take(i as int).map_values(|e: (String, (FunctionTool, Option<E>))| ToolDefinition::Function(e.1.0)).push(ToolDefinition::Function(entries@[i as int].1.0)));
            }
            i = i + 1;
        }
        proof {
            assert(entries@.take(entries@.len() as int) == entries@);
        }
        r
    }

    /// The tool the model calls to discover a deferred tool by name and load it.
    pub fn create_discovery_meta_tool(&self) -> (t: FunctionTool)
        ensures
            t.name@ == "discover_deferred_tool"@,
            t.input_schema@ == discovery_schema_text(),
            t.description is Some,
            t.description->0@ == "动态发现或检索延迟工具的完整定义与参数规范，调用后将该工具动态载入当前会话。"@,
    {
        FunctionTool::new(
            "discover_deferred_tool",
            String::from_str("{\"properties\":{\"tool_name\":{\"description\":\"需要动态加载或查询详细 Schema 的工具名称\",\"type\":\"string\"}},\"required\":[\"tool_name\"],\"type\":\"object\"}"),
        ).with_description("动态发现或检索延迟工具的完整定义与参数规范，调用后将该工具动态载入当前会话。")
    }
}

} // verus!
