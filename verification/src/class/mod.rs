//! The class format and the loaders that supply it.

pub mod simple_loader;

use crate::class::simple_loader::class_reader::ClassFile;
use vstd::prelude::*;

verus! {

/// A class that a loader has defined: its name and its decoded file.
#[derive(Debug, PartialEq, Eq)]
pub struct Class {
    pub name: String,
    pub file: ClassFile,
}

/// A source of classes, asked by name.
pub trait ClassLoader {
    /// The class that this loader has under `class_name`, if any.
    spec fn found(&self, class_name: Seq<char>) -> Option<Class>;

    fn load_class(&self, class_name: &str) -> (r: Option<&Class>)
        ensures
            match r {
                Some(class) => self.found(class_name@) == Some(*class),
                None => self.found(class_name@) is None,
            },
    ;
}

/// The class that the first of `loaders` from index `from` on to have one
/// has under `class_name`.
pub open spec fn first_found<L: ClassLoader>(
    loaders: Seq<L>,
    class_name: Seq<char>,
    from: int,
) -> Option<Class>
    decreases loaders.len() - from,
{
    if from < 0 || from >= loaders.len() {
        None
    } else {
        match loaders[from].found(class_name) {
            Some(class) => Some(class),
            None => first_found(loaders, class_name, from + 1),
        }
    }
}

/// Asks the loaders in order and answers with the first class found.
pub fn find_class<'a, L: ClassLoader>(loaders: &'a Vec<L>, class_name: &str) -> (r: Option<
    &'a Class,
>)
    ensures
        match r {
            Some(class) => first_found(loaders@, class_name@, 0) == Some(*class),
            None => first_found(loaders@, class_name@, 0) is None,
        },
{
    let len: usize = loaders.len();
    let mut n: usize = 0;
    while n < len
        invariant
            n <= len,
            len == loaders.len(),
            first_found(loaders@, class_name@, 0) == first_found(loaders@, class_name@, n as int),
        decreases len - n,
    {
        let opt: Option<&Class> = loaders[n].load_class(class_name);
        if opt.is_some() {
            return opt;
        }
        n += 1;
    }
    None
}

} // verus!
