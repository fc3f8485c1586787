//! The subclass bridges: one module per overridable native capability.
//!
//! Each bridge follows the same protocol.  An override trait defines one
//! method per virtual operation, with a per-implementation contract whose
//! default is exact delegation to the parent class.  A companion trait
//! holds the parent-call accessors, which resolve the parent's vtable slot
//! through the live type registry and invoke the parent implementation,
//! never the calling layer's own override.  Trampolines adapt each
//! override to the raw native return shape, and the class-initialisation
//! hook installs a trampoline into every slot of the capability.
//!
//! The executable dispatch serves one bridged layer directly above the
//! native base class — the layout the binding produces in practice.
//! Deeper chains of class descriptors are covered by the registry's laws:
//! resolution walks the live parent links, and a parent call can never
//! land back in the calling layer's own trampoline.

pub mod file_enumerator;
pub mod file_monitor;
pub mod vfs;
