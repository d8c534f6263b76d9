//! The virtual machine as a whole.

use crate::class::{find_class, first_found, Class, ClassLoader};
use vstd::prelude::*;

verus! {

/// A virtual machine, as far as its classes go: the loaders that it takes
/// them from, in the order in which they are asked.
pub struct VirtualMachine<L: ClassLoader> {
    pub class_loaders: Vec<L>,
}

impl<L: ClassLoader> VirtualMachine<L> {
    pub fn new(class_loaders: Vec<L>) -> (vm: VirtualMachine<L>)
        ensures
            vm.class_loaders == class_loaders,
    {
        VirtualMachine { class_loaders }
    }

    /// The class `class_name` from the first loader that has it.
    pub fn load_class(&self, class_name: &str) -> (r: Option<&Class>)
        ensures
            match r {
                Some(class) => first_found(self.class_loaders@, class_name@, 0) == Some(*class),
                None => first_found(self.class_loaders@, class_name@, 0) is None,
            },
    {
        find_class(&self.class_loaders, class_name)
    }
}

} // verus!
