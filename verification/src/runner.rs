//! Runtime wiring.
//!
//! A `MistralRsBuilder` collects the pipeline, the scheduler policy, the
//! callback registrations and the cache toggles; `build` finalizes it into
//! the served runner, and `Model` is the terminal handle the caller owns.
//! Every step here is a pure in-memory mutation with no failure mode.

use vstd::prelude::*;

use crate::descriptor::CallbackId;
use crate::descriptor::ToolCallbackEntry;
use crate::descriptor::ToolCallbackWithToolEntry;
use crate::descriptor::ToolId;
use crate::pipeline::Pipeline;
use crate::scheduler::SchedulerConfig;

verus! {

/// Staged construction of the runtime.
#[derive(Debug)]
pub struct MistralRsBuilder {
    pub pipeline: Pipeline,
    pub method: SchedulerConfig,
    pub throughput_logging: bool,
    pub search_embedding_model: Option<String>,
    pub search_callback: Option<CallbackId>,
    pub tool_callbacks: Vec<ToolCallbackEntry>,
    pub tool_callbacks_with_tools: Vec<ToolCallbackWithToolEntry>,
    pub no_kv_cache: bool,
    pub no_prefix_cache: bool,
    pub prefix_cache_n: Option<usize>,
}

/// The served runner: a finalized `MistralRsBuilder`.
#[derive(Debug)]
pub struct MistralRs {
    pub pipeline: Pipeline,
    pub method: SchedulerConfig,
    pub throughput_logging: bool,
    pub search_embedding_model: Option<String>,
    pub search_callback: Option<CallbackId>,
    pub tool_callbacks: Vec<ToolCallbackEntry>,
    pub tool_callbacks_with_tools: Vec<ToolCallbackWithToolEntry>,
    pub no_kv_cache: bool,
    pub no_prefix_cache: bool,
    pub prefix_cache_n: Option<usize>,
}

/// The callback a name resolves to: the latest registration under that name.
pub open spec fn spec_tool_lookup(entries: Seq<ToolCallbackEntry>, name: Seq<char>) -> Option<
    CallbackId,
>
    decreases entries.len(),
{
    if entries.len() == 0 {
        None
    } else if entries.last().name@ == name {
        Some(entries.last().callback)
    } else {
        spec_tool_lookup(entries.drop_last(), name)
    }
}

/// The callback-and-tool pair a name resolves to: the latest registration
/// under that name.
pub open spec fn spec_tool_with_tool_lookup(
    entries: Seq<ToolCallbackWithToolEntry>,
    name: Seq<char>,
) -> Option<(CallbackId, ToolId)>
    decreases entries.len(),
{
    if entries.len() == 0 {
        None
    } else if entries.last().name@ == name {
        Some((entries.last().callback, entries.last().tool))
    } else {
        spec_tool_with_tool_lookup(entries.drop_last(), name)
    }
}

impl MistralRsBuilder {
    /// Starts the runtime from the pipeline and the selected policy, with no
    /// callbacks registered and every cache toggle off.
    pub fn new(
        pipeline: Pipeline,
        method: SchedulerConfig,
        throughput_logging: bool,
        search_embedding_model: Option<String>,
    ) -> (r: Self)
        ensures
            r.pipeline == pipeline,
            r.method == method,
            r.throughput_logging == throughput_logging,
            r.search_embedding_model == search_embedding_model,
            r.search_callback is None,
            r.tool_callbacks@ == Seq::<ToolCallbackEntry>::empty(),
            r.tool_callbacks_with_tools@ == Seq::<ToolCallbackWithToolEntry>::empty(),
            r.no_kv_cache == false,
            r.no_prefix_cache == false,
            r.prefix_cache_n is None,
    {
        MistralRsBuilder {
            pipeline,
            method,
            throughput_logging,
            search_embedding_model,
            search_callback: None,
            tool_callbacks: Vec::new(),
            tool_callbacks_with_tools: Vec::new(),
            no_kv_cache: false,
            no_prefix_cache: false,
            prefix_cache_n: None,
        }
    }

    /// Registers the search callback; at most one is kept.
    pub fn with_search_callback(self, callback: CallbackId) -> (r: Self)
        ensures
            r == (MistralRsBuilder { search_callback: Some(callback), ..self }),
    {
        MistralRsBuilder { search_callback: Some(callback), ..self }
    }

    /// Registers a tool callback under its name.
    pub fn with_tool_callback(self, name: String, callback: CallbackId) -> (r: Self)
        ensures
            r.tool_callbacks@ == self.tool_callbacks@.push(
                ToolCallbackEntry { name, callback },
            ),
            r.pipeline == self.pipeline,
            r.method == self.method,
            r.throughput_logging == self.throughput_logging,
            r.search_embedding_model == self.search_embedding_model,
            r.search_callback == self.search_callback,
            r.tool_callbacks_with_tools == self.tool_callbacks_with_tools,
            r.no_kv_cache == self.no_kv_cache,
            r.no_prefix_cache == self.no_prefix_cache,
            r.prefix_cache_n == self.prefix_cache_n,
    {
        let MistralRsBuilder {
            pipeline,
            method,
            throughput_logging,
            search_embedding_model,
            search_callback,
            mut tool_callbacks,
            tool_callbacks_with_tools,
            no_kv_cache,
            no_prefix_cache,
            prefix_cache_n,
        } = self;
        tool_callbacks.push(ToolCallbackEntry { name, callback });
        MistralRsBuilder {
            pipeline,
            method,
            throughput_logging,
            search_embedding_model,
            search_callback,
            tool_callbacks,
            tool_callbacks_with_tools,
            no_kv_cache,
            no_prefix_cache,
            prefix_cache_n,
        }
    }

    /// Registers a tool callback bound to a tool definition under its name.
    pub fn with_tool_callback_and_tool(self, name: String, callback: CallbackId, tool: ToolId) -> (r:
        Self)
        ensures
            r.tool_callbacks_with_tools@ == self.tool_callbacks_with_tools@.push(
                ToolCallbackWithToolEntry { name, callback, tool },
            ),
            r.pipeline == self.pipeline,
            r.method == self.method,
            r.throughput_logging == self.throughput_logging,
            r.search_embedding_model == self.search_embedding_model,
            r.search_callback == self.search_callback,
            r.tool_callbacks == self.tool_callbacks,
            r.no_kv_cache == self.no_kv_cache,
            r.no_prefix_cache == self.no_prefix_cache,
            r.prefix_cache_n == self.prefix_cache_n,
    {
        let MistralRsBuilder {
            pipeline,
            method,
            throughput_logging,
            search_embedding_model,
            search_callback,
            tool_callbacks,
            mut tool_callbacks_with_tools,
            no_kv_cache,
            no_prefix_cache,
            prefix_cache_n,
        } = self;
        tool_callbacks_with_tools.push(ToolCallbackWithToolEntry { name, callback, tool });
        MistralRsBuilder {
            pipeline,
            method,
            throughput_logging,
            search_embedding_model,
            search_callback,
            tool_callbacks,
            tool_callbacks_with_tools,
            no_kv_cache,
            no_prefix_cache,
            prefix_cache_n,
        }
    }

    /// Sets the KV-cache disablement toggle.
    pub fn with_no_kv_cache(self, no_kv_cache: bool) -> (r: Self)
        ensures
            r == (MistralRsBuilder { no_kv_cache, ..self }),
    {
        MistralRsBuilder { no_kv_cache, ..self }
    }

    /// Sets the prefix-cache disablement toggle.
    pub fn with_no_prefix_cache(self, no_prefix_cache: bool) -> (r: Self)
        ensures
            r == (MistralRsBuilder { no_prefix_cache, ..self }),
    {
        MistralRsBuilder { no_prefix_cache, ..self }
    }

    /// Sets the prefix-cache depth.
    pub fn with_prefix_cache_n(self, n: usize) -> (r: Self)
        ensures
            r == (MistralRsBuilder { prefix_cache_n: Some(n), ..self }),
    {
        MistralRsBuilder { prefix_cache_n: Some(n), ..self }
    }

    /// Finalizes the runtime: the served runner carries exactly what was
    /// staged.
    pub fn build(self) -> (r: MistralRs)
        ensures
            r.pipeline == self.pipeline,
            r.method == self.method,
            r.throughput_logging == self.throughput_logging,
            r.search_embedding_model == self.search_embedding_model,
            r.search_callback == self.search_callback,
            r.tool_callbacks == self.tool_callbacks,
            r.tool_callbacks_with_tools == self.tool_callbacks_with_tools,
            r.no_kv_cache == self.no_kv_cache,
            r.no_prefix_cache == self.no_prefix_cache,
            r.prefix_cache_n == self.prefix_cache_n,
    {
        let MistralRsBuilder {
            pipeline,
            method,
            throughput_logging,
            search_embedding_model,
            search_callback,
            tool_callbacks,
            tool_callbacks_with_tools,
            no_kv_cache,
            no_prefix_cache,
            prefix_cache_n,
        } = self;
        MistralRs {
            pipeline,
            method,
            throughput_logging,
            search_embedding_model,
            search_callback,
            tool_callbacks,
            tool_callbacks_with_tools,
            no_kv_cache,
            no_prefix_cache,
            prefix_cache_n,
        }
    }
}

impl MistralRs {
    /// Resolves a tool callback by name.
    pub fn tool_callback(&self, name: &String) -> (r: Option<CallbackId>)
        ensures
            r == spec_tool_lookup(self.tool_callbacks@, name@),
    {
        let mut i: usize = self.tool_callbacks.len();
        proof {
            assert(self.tool_callbacks@.take(i as int) =~= self.tool_callbacks@);
        }
        while i > 0
            invariant
                i <= self.tool_callbacks.len(),
                spec_tool_lookup(self.tool_callbacks@, name@) == spec_tool_lookup(
                    self.tool_callbacks@.take(i as int),
                    name@,
                ),
            decreases i,
        {
            let entry = &self.tool_callbacks[i - 1];
            if entry.name == *name {
                proof {
                    assert(self.tool_callbacks@.take(i as int).last() == self.tool_callbacks@[i
                        - 1]);
                }
                return Some(entry.callback);
            }
            proof {
                assert(self.tool_callbacks@.take(i as int).drop_last() =~= self.tool_callbacks@
                    .take(i - 1));
            }
            i = i - 1;
        }
        None
    }

    /// Resolves a tool callback with its bound tool by name.
    pub fn tool_callback_with_tool(&self, name: &String) -> (r: Option<(CallbackId, ToolId)>)
        ensures
            r == spec_tool_with_tool_lookup(self.tool_callbacks_with_tools@, name@),
    {
        let mut i: usize = self.tool_callbacks_with_tools.len();
        proof {
            assert(self.tool_callbacks_with_tools@.take(i as int)
                =~= self.tool_callbacks_with_tools@);
        }
        while i > 0
            invariant
                i <= self.tool_callbacks_with_tools.len(),
                spec_tool_with_tool_lookup(self.tool_callbacks_with_tools@, name@)
                    == spec_tool_with_tool_lookup(
                    self.tool_callbacks_with_tools@.take(i as int),
                    name@,
                ),
            decreases i,
        {
            let entry = &self.tool_callbacks_with_tools[i - 1];
            if entry.name == *name {
                proof {
                    assert(self.tool_callbacks_with_tools@.take(i as int).last()
                        == self.tool_callbacks_with_tools@[i - 1]);
                }
                return Some((entry.callback, entry.tool));
            }
            proof {
                assert(self.tool_callbacks_with_tools@.take(i as int).drop_last()
                    =~= self.tool_callbacks_with_tools@.take(i - 1));
            }
            i = i - 1;
        }
        None
    }
}

/// Registers every entry of a tool-callback table, in table order.  Only the
/// tool-callback registrations change; registration order carries no meaning
/// beyond the table's own.
pub fn register_tool_callbacks(runner: MistralRsBuilder, entries: &Vec<ToolCallbackEntry>) -> (r:
    MistralRsBuilder)
    ensures
        r.tool_callbacks@ == runner.tool_callbacks@ + entries@,
        r.pipeline == runner.pipeline,
        r.method == runner.method,
        r.throughput_logging == runner.throughput_logging,
        r.search_embedding_model == runner.search_embedding_model,
        r.search_callback == runner.search_callback,
        r.tool_callbacks_with_tools == runner.tool_callbacks_with_tools,
        r.no_kv_cache == runner.no_kv_cache,
        r.no_prefix_cache == runner.no_prefix_cache,
        r.prefix_cache_n == runner.prefix_cache_n,
{
    let mut r = runner;
    proof {
        assert(runner.tool_callbacks@ + entries@.take(0) =~= runner.tool_callbacks@);
    }
    for i in 0..entries.len()
        invariant
            r.tool_callbacks@ == runner.tool_callbacks@ + entries@.take(i as int),
            r.pipeline == runner.pipeline,
            r.method == runner.method,
            r.throughput_logging == runner.throughput_logging,
            r.search_embedding_model == runner.search_embedding_model,
            r.search_callback == runner.search_callback,
            r.tool_callbacks_with_tools == runner.tool_callbacks_with_tools,
            r.no_kv_cache == runner.no_kv_cache,
            r.no_prefix_cache == runner.no_prefix_cache,
            r.prefix_cache_n == runner.prefix_cache_n,
    {
        let entry = &entries[i];
        r = r.with_tool_callback(entry.name.clone(), entry.callback);
        proof {
            assert((runner.tool_callbacks@ + entries@.take(i as int)).push(entries@[i as int])
                =~= runner.tool_callbacks@ + entries@.take(i as int + 1));
        }
    }
    proof {
        assert(runner.tool_callbacks@ + entries@.take(entries@.len() as int)
            =~= runner.tool_callbacks@ + entries@);
    }
    r
}

/// Registers every entry of a tool-callback-with-tool table, in table order.
pub fn register_tool_callbacks_with_tools(
    runner: MistralRsBuilder,
    entries: &Vec<ToolCallbackWithToolEntry>,
) -> (r: MistralRsBuilder)
    ensures
        r.tool_callbacks_with_tools@ == runner.tool_callbacks_with_tools@ + entries@,
        r.pipeline == runner.pipeline,
        r.method == runner.method,
        r.throughput_logging == runner.throughput_logging,
        r.search_embedding_model == runner.search_embedding_model,
        r.search_callback == runner.search_callback,
        r.tool_callbacks == runner.tool_callbacks,
        r.no_kv_cache == runner.no_kv_cache,
        r.no_prefix_cache == runner.no_prefix_cache,
        r.prefix_cache_n == runner.prefix_cache_n,
{
    let mut r = runner;
    proof {
        assert(runner.tool_callbacks_with_tools@ + entries@.take(0)
            =~= runner.tool_callbacks_with_tools@);
    }
    for i in 0..entries.len()
        invariant
            r.tool_callbacks_with_tools@ == runner.tool_callbacks_with_tools@ + entries@.take(
                i as int,
            ),
            r.pipeline == runner.pipeline,
            r.method == runner.method,
            r.throughput_logging == runner.throughput_logging,
            r.search_embedding_model == runner.search_embedding_model,
            r.search_callback == runner.search_callback,
            r.tool_callbacks == runner.tool_callbacks,
            r.no_kv_cache == runner.no_kv_cache,
            r.no_prefix_cache == runner.no_prefix_cache,
            r.prefix_cache_n == runner.prefix_cache_n,
    {
        let entry = &entries[i];
        r = r.with_tool_callback_and_tool(entry.name.clone(), entry.callback, entry.tool);
        proof {
            assert((runner.tool_callbacks_with_tools@ + entries@.take(i as int)).push(
                entries@[i as int],
            ) =~= runner.tool_callbacks_with_tools@ + entries@.take(i as int + 1));
        }
    }
    proof {
        assert(runner.tool_callbacks_with_tools@ + entries@.take(entries@.len() as int)
            =~= runner.tool_callbacks_with_tools@ + entries@);
    }
    r
}

/// The terminal, servable artifact wrapping the fully configured runner.
#[derive(Debug)]
pub struct Model {
    pub runner: MistralRs,
}

impl Model {
    /// Wraps the finalized runner.
    pub fn new(runner: MistralRs) -> (r: Self)
        ensures
            r.runner == runner,
    {
        Model { runner }
    }
}

} // verus!
