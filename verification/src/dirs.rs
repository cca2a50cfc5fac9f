//! A `pushd`/`popd` directory stack.
//!
//! The commands that walk project trees keep the directories they entered on
//! a stack, so they can run each step somewhere else and come back. The stack
//! and its rules live here; actually changing the process's working directory
//! is the surrounding binary's job, done beside each call.

use vstd::prelude::*;

verus! {

/// Trying to pop the directory the stack started in.
#[derive(Debug)]
pub enum DirStackError {
    CannotPopRootDirectory,
}

impl DirStackError {
    /// The message describing this error.
    pub fn message(&self) -> (r: String)
        ensures
            r@ == "cannot popd from root directory"@,
    {
        let m: String = "cannot popd from root directory".to_owned();
        m
    }
}

/// A stack of working directories, never empty: the bottom entry is the
/// directory the stack was created in.
pub struct DirectoryUtils {
    pub dir_stack: Vec<String>,
}

impl View for DirectoryUtils {
    type V = Seq<Seq<char>>;

    open spec fn view(&self) -> Seq<Seq<char>> {
        self.dir_stack.deep_view()
    }
}

impl DirectoryUtils {
    /// The stack always holds at least its starting directory.
    pub open spec fn well_formed(&self) -> bool {
        self@.len() >= 1
    }

    /// A new stack, holding only the directory the caller is currently in.
    pub fn new(initial_dir: String) -> (r: Self)
        ensures
            r@ =~= seq![initial_dir@],
            r.well_formed(),
    {
        let mut dir_stack: Vec<String> = Vec::new();
        dir_stack.push(initial_dir);
        Self { dir_stack }
    }

    /// Returns the current working directory: the top of the stack.
    pub fn get_cwd(&self) -> (r: &String)
        requires
            self.well_formed(),
        ensures
            r@ == self@.last(),
    {
        &self.dir_stack[self.dir_stack.len() - 1]
    }

    /// Pushes the given path as the new current directory and returns the
    /// previous one.
    ///
    /// Equivalent to the command `pushd`.
    pub fn pushd(&mut self, new_path: String) -> (r: String)
        requires
            old(self).well_formed(),
        ensures
            final(self)@ =~= old(self)@.push(new_path@),
            final(self).well_formed(),
            r@ == old(self)@.last(),
    {
        let previous = self.dir_stack[self.dir_stack.len() - 1].clone();
        self.dir_stack.push(new_path);
        proof {
            assert(self@ =~= old(self)@.push(new_path@));
        }
        previous
    }

    /// Pops and returns the current directory, making the previous one
    /// current again; refused on a stack holding only its starting directory.
    ///
    /// Equivalent to the command `popd`.
    pub fn popd(&mut self) -> (r: Result<String, DirStackError>)
        requires
            old(self).well_formed(),
        ensures
            final(self).well_formed(),
            old(self)@.len() == 1 ==> r is Err && final(self)@ == old(self)@,
            old(self)@.len() > 1 ==> (r matches Ok(d) && d@ == old(self)@.last() && final(self)@
                =~= old(self)@.drop_last()),
    {
        if self.dir_stack.len() == 1 {
            return Err(DirStackError::CannotPopRootDirectory);
        }
        match self.dir_stack.pop() {
            Some(prev) => {
                proof {
                    assert(self@ =~= old(self)@.drop_last());
                }
                Ok(prev)
            },
            None => {
                proof {
                    assert(false);
                }
                Err(DirStackError::CannotPopRootDirectory)
            },
        }
    }
}

} // verus!
