//! Decision core of an adapter-aware model builder.
//!
//! Given a modality-tagged base-model descriptor (text or vision) and a list
//! of LoRA adapter identifiers, this library projects the descriptor into a
//! modality-specific load configuration, assembles the loader invocation that
//! an external host must perform, selects a scheduling policy from the loaded
//! pipeline's metadata, and wires the runtime handle.  The weight loading,
//! device probing and the serving loop themselves belong to that host; this
//! crate holds, and proves, the decisions that parameterize them.

pub mod builder;
pub mod config;
pub mod copying;
pub mod descriptor;
pub mod loader;
pub mod pipeline;
pub mod runner;
pub mod scheduler;

pub use builder::LoraModelBuilder;
pub use builder::LoraModelBuilderInner;
pub use descriptor::TextModelBuilder;
pub use descriptor::VisionModelBuilder;
pub use pipeline::Pipeline;
pub use runner::Model;
pub use scheduler::BuildError;
pub use scheduler::SchedulerConfig;
