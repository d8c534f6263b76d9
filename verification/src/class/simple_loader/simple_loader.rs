//! A loader for classes that lie as files under one directory.
//!
//! The loader says where the file of a class lies, decodes the bytes of a
//! file once they are handed to it, and keeps the classes it has decoded.
//! Reading the file is left to the caller.

use crate::class::simple_loader::class_reader::{decode, fails, parse_class, ClassFile};
use crate::class::{Class, ClassLoader};
use crate::error::DecodeError;
use vstd::prelude::*;
use vstd::string::{StrSliceExecFns, StringExecFns};

verus! {

/// How a class path stores its classes.
#[derive(Clone, Copy, Debug, PartialEq, Eq, Structural)]
pub enum ClassPathType {
    /// One file per class, in directories named after the packages.
    Folder,
}

/// `name` with `\` in place of each `/`.
pub open spec fn with_backslashes(name: Seq<char>) -> Seq<char> {
    Seq::new(
        name.len(),
        |i: int|
            if name[i] == '/' {
                '\\'
            } else {
                name[i]
            },
    )
}

/// The path of the file of class `class_name` under the directory
/// `class_path`.
pub open spec fn file_path(class_path: Seq<char>, class_name: Seq<char>) -> Seq<char> {
    class_path + with_backslashes(class_name) + ".class"@
}

/// The first of `classes` from index `from` on that has the name
/// `class_name`.
pub open spec fn first_named(classes: Seq<Class>, class_name: Seq<char>, from: int) -> Option<
    Class,
>
    decreases classes.len() - from,
{
    if from < 0 || from >= classes.len() {
        None
    } else if classes[from].name@ == class_name {
        Some(classes[from])
    } else {
        first_named(classes, class_name, from + 1)
    }
}

/// A loader over one directory of class files.
#[derive(Debug, PartialEq, Eq)]
pub struct SimpleClassLoader {
    pub class_path: String,
    pub class_path_type: ClassPathType,
    pub classes: Vec<Class>,
}

impl SimpleClassLoader {
    /// A loader for the directory `class_path` that has defined no class yet.
    pub fn new(class_path: String, class_path_type: ClassPathType) -> (loader: SimpleClassLoader)
        ensures
            loader.class_path == class_path,
            loader.class_path_type == class_path_type,
            loader.classes@ == Seq::<Class>::empty(),
    {
        SimpleClassLoader { class_path, class_path_type, classes: Vec::new() }
    }

    /// Where the file of the class `class_name` lies.
    pub fn class_file_path(&self, class_name: &str) -> (path: String)
        ensures
            path@ == file_path(self.class_path@, class_name@),
    {
        let mut path: String = self.class_path.clone();
        let n: usize = class_name.unicode_len();
        let mut i: usize = 0;
        while i < n
            invariant
                i <= n,
                n == class_name@.len(),
                path@ == self.class_path@ + with_backslashes(class_name@).take(i as int),
            decreases n - i,
        {
            let c: char = class_name.get_char(i);
            if c == '/' {
                path.push('\\');
            } else {
                path.push(c);
            }
            i += 1;
            assert(with_backslashes(class_name@).take(i as int) =~= with_backslashes(
                class_name@,
            ).take(i - 1).push(with_backslashes(class_name@)[i - 1]));
            assert(path@ =~= self.class_path@ + with_backslashes(class_name@).take(i as int));
        }
        assert(with_backslashes(class_name@).take(n as int) =~= with_backslashes(class_name@));
        path.append(".class");
        path
    }

    /// Decodes `data` as the file of the class `class_name` and keeps the
    /// class. Where the decoding fails, the loader stays as it is.
    pub fn define_class(&mut self, class_name: &str, data: Vec<u8>) -> (r: Result<
        (),
        DecodeError,
    >)
        ensures
            final(self).class_path == old(self).class_path,
            final(self).class_path_type == old(self).class_path_type,
            match r {
                Ok(_) => {
                    &&& parse_class(data@, 0) is Ok
                    &&& final(self).classes@.len() == old(self).classes@.len() + 1
                    &&& final(self).classes@.drop_last() == old(self).classes@
                    &&& final(self).classes@.last().name@ == class_name@
                    &&& final(self).classes@.last().file@ == parse_class(data@, 0)->Ok_0.0
                },
                Err(e) => fails(parse_class(data@, 0), e) && final(self).classes == old(
                    self,
                ).classes,
            },
    {
        let file: ClassFile = decode(data)?;
        let name: String = String::from_str(class_name);
        self.classes.push(Class { name, file });
        assert(self.classes@.drop_last() =~= old(self).classes@);
        Ok(())
    }
}

impl ClassLoader for SimpleClassLoader {
    /// The class defined first under `class_name`.
    open spec fn found(&self, class_name: Seq<char>) -> Option<Class> {
        first_named(self.classes@, class_name, 0)
    }

    fn load_class(&self, class_name: &str) -> (r: Option<&Class>) {
        let wanted: String = String::from_str(class_name);
        let len: usize = self.classes.len();
        let mut n: usize = 0;
        while n < len
            invariant
                n <= len,
                len == self.classes.len(),
                wanted@ == class_name@,
                first_named(self.classes@, class_name@, 0) == first_named(
                    self.classes@,
                    class_name@,
                    n as int,
                ),
            decreases len - n,
        {
            if self.classes[n].name == wanted {
                return Some(&self.classes[n]);
            }
            n += 1;
        }
        None
    }
}

} // verus!
