//! The order in which the boot path brings the trap machinery up.
use vstd::prelude::*;

verus! {

/// One step of bringing up the trap machinery.
#[derive(Debug, Clone, Copy, PartialEq, Eq, Structural)]
pub enum BootStep {
    /// Load the descriptor table and activate its code and task-state
    /// selectors.
    LoadDescriptorTable,
    /// Load the vector table.
    LoadVectorTable,
    /// Remap the two interrupt controllers to their offsets.
    InitializeControllers,
    /// Enable hardware interrupts globally.
    EnableInterrupts,
}

/// Which steps have been carried out.
#[derive(Debug, Clone, Copy, PartialEq, Eq, Structural)]
pub struct BootState {
    pub descriptor_table_loaded: bool,
    pub vector_table_loaded: bool,
    pub controllers_initialized: bool,
    pub interrupts_enabled: bool,
}

impl BootState {
    /// Each step has all the earlier ones behind it.
    pub open spec fn ordered(self) -> bool {
        &&& self.vector_table_loaded ==> self.descriptor_table_loaded
        &&& self.controllers_initialized ==> self.vector_table_loaded
        &&& self.interrupts_enabled ==> self.controllers_initialized
    }

    /// The step that comes next, if any is left.
    pub open spec fn spec_next_step(self) -> Option<BootStep> {
        if !self.descriptor_table_loaded {
            Some(BootStep::LoadDescriptorTable)
        } else if !self.vector_table_loaded {
            Some(BootStep::LoadVectorTable)
        } else if !self.controllers_initialized {
            Some(BootStep::InitializeControllers)
        } else if !self.interrupts_enabled {
            Some(BootStep::EnableInterrupts)
        } else {
            None
        }
    }

    /// The state once `step` has been carried out.
    pub open spec fn spec_after(self, step: BootStep) -> BootState {
        match step {
            BootStep::LoadDescriptorTable => BootState { descriptor_table_loaded: true, ..self },
            BootStep::LoadVectorTable => BootState { vector_table_loaded: true, ..self },
            BootStep::InitializeControllers => BootState { controllers_initialized: true, ..self },
            BootStep::EnableInterrupts => BootState { interrupts_enabled: true, ..self },
        }
    }

    /// Nothing done yet.
    pub fn new() -> (r: BootState)
        ensures
            r.ordered(),
            !r.descriptor_table_loaded,
            !r.vector_table_loaded,
            !r.controllers_initialized,
            !r.interrupts_enabled,
    {
        BootState {
            descriptor_table_loaded: false,
            vector_table_loaded: false,
            controllers_initialized: false,
            interrupts_enabled: false,
        }
    }

    pub fn next_step(&self) -> (r: Option<BootStep>)
        ensures
            r == self.spec_next_step(),
    {
        if !self.descriptor_table_loaded {
            Some(BootStep::LoadDescriptorTable)
        } else if !self.vector_table_loaded {
            Some(BootStep::LoadVectorTable)
        } else if !self.controllers_initialized {
            Some(BootStep::InitializeControllers)
        } else if !self.interrupts_enabled {
            Some(BootStep::EnableInterrupts)
        } else {
            None
        }
    }

    /// Records that `step`, the next one, has been carried out.
    pub fn complete(&mut self, step: BootStep)
        requires
            old(self).spec_next_step() == Some(step),
        ensures
            *final(self) == old(self).spec_after(step),
    {
        match step {
            BootStep::LoadDescriptorTable => self.descriptor_table_loaded = true,
            BootStep::LoadVectorTable => self.vector_table_loaded = true,
            BootStep::InitializeControllers => self.controllers_initialized = true,
            BootStep::EnableInterrupts => self.interrupts_enabled = true,
        }
    }
}

/// Carrying out the next step keeps the order: interrupts are never enabled
/// before the vector table is loaded and the controllers are remapped, nor
/// the controllers remapped before the vector table is loaded, nor that
/// loaded before the descriptor table.
pub proof fn next_step_keeps_order(s: BootState)
    requires
        s.ordered(),
    ensures
        s.spec_next_step() matches Some(step) ==> s.spec_after(step).ordered(),
        s.spec_next_step() is None ==> s.interrupts_enabled,
{
}

} // verus!
