//! The execution engine: frames, the call stack, and instructions.

pub mod basic_env_elements;
pub mod byte_code_reader;
pub mod inst;
pub mod insts;
pub mod interpreter;

use crate::class::{find_class, first_found, Class, ClassLoader};
use vstd::prelude::*;

verus! {

/// The classes that a program can see: loaders in the order in which they
/// are asked.
pub struct Environment<L: ClassLoader> {
    pub class_loaders: Vec<L>,
}

impl<L: ClassLoader> Environment<L> {
    pub fn new(class_loaders: Vec<L>) -> (env: Environment<L>)
        ensures
            env.class_loaders == class_loaders,
    {
        Environment { class_loaders }
    }

    /// The class `class_name` from the first loader that has it.
    pub fn load_class(&self, class_name: &str) -> (r: Option<&Class>)
        ensures
            match r {
                Some(class) => first_found(self.class_loaders@, class_name@, 0) == Some(*class),
                None => first_found(self.class_loaders@, class_name@, 0) is None,
            },
    {
        find_class(&self.class_loaders, class_name)
    }
}

} // verus!
