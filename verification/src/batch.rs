//! The batch orchestrator: a fail-fast state machine that hands out one
//! fully formed file request per created file.
//!
//! The library does no filesystem work itself.  The caller repeatedly asks
//! for the next file to create (`next_file`), performs the creation and the
//! write, and reports the outcome back (`record_created` or
//! `record_failure`).  After a failure the batch hands out nothing further
//! and the count of created files stays where it was: the first error
//! aborts the remaining work, and files already created are left untouched.

use vstd::prelude::*;
use crate::generate::{
    generate_data, generate_file_name, is_content, is_file_name, FILE_NAME_LENGTH,
};

verus! {

/// The fixed length of generated file content, in characters.
pub const CONTENT_LENGTH: u32 = 4096;

/// The full path of a file named `file` inside the directory `dir`, joined
/// with a single separator: an empty directory leaves the file name bare,
/// and a directory that already ends in a separator gets no second one.
pub open spec fn joined_path(dir: Seq<char>, file: Seq<char>) -> Seq<char> {
    if dir.len() == 0 {
        file
    } else if dir.last() == '/' {
        dir + file
    } else {
        dir + seq!['/'] + file
    }
}

/// Appends `name`, a dot, and `extension`.
pub fn format_file_name(name: &str, extension: &str) -> (r: String)
    ensures
        r@ == name@ + seq!['.'] + extension@,
{
    let mut s = String::from_str(name);
    s.append(".");
    s.append(extension);
    proof {
        reveal_strlit(".");
        assert(s@ =~= name@ + seq!['.'] + extension@);
    }
    s
}

/// Joins a directory and a file name with a separator, as `joined_path`
/// describes.
pub fn join_path(dir: &str, file: &str) -> (r: String)
    ensures
        r@ == joined_path(dir@, file@),
{
    let dir_len = dir.unicode_len();
    if dir_len == 0 {
        String::from_str(file)
    } else if dir.get_char(dir_len - 1) == '/' {
        let mut s = String::from_str(dir);
        s.append(file);
        s
    } else {
        let mut s = String::from_str(dir);
        s.append("/");
        s.append(file);
        proof {
            reveal_strlit("/");
            assert(s@ =~= dir@ + seq!['/'] + file@);
        }
        s
    }
}

/// One file of a batch: a freshly generated random name, the full path the
/// file is to be created at, and the content to write into it.
pub struct GeneratedFile {
    /// The random six-character base name, without extension.
    pub name: String,
    /// The full path: directory, separator, name, dot, extension.
    pub path: String,
    /// The random content, `CONTENT_LENGTH` characters long.
    pub content: String,
}

impl GeneratedFile {
    /// A well-formed file request for a batch over directory `dir` and
    /// extension `extension`.
    pub open spec fn wf(self, dir: Seq<char>, extension: Seq<char>) -> bool {
        &&& is_file_name(self.name@)
        &&& self.path@ == joined_path(dir, self.name@ + seq!['.'] + extension)
        &&& self.content@.len() == CONTENT_LENGTH
        &&& is_content(self.content@)
    }
}

/// The state of one batch of file creations.
pub struct Batch {
    amount: u32,
    created: u32,
    failed: bool,
    path: String,
    extension: String,
    printflag: bool,
}

impl Batch {
    /// The number of files this batch was asked to create.
    pub closed spec fn spec_amount(self) -> u32 {
        self.amount
    }

    /// The number of files created and written so far.
    pub closed spec fn spec_created(self) -> u32 {
        self.created
    }

    /// Whether a creation or write has failed; a failed batch is aborted.
    pub closed spec fn spec_failed(self) -> bool {
        self.failed
    }

    /// The destination directory.
    pub closed spec fn spec_path(self) -> Seq<char> {
        self.path@
    }

    /// The extension given to every generated file.
    pub closed spec fn spec_extension(self) -> Seq<char> {
        self.extension@
    }

    /// Whether a progress line is to be printed per created file.
    pub closed spec fn spec_printflag(self) -> bool {
        self.printflag
    }

    /// Well-formedness: never more files created than requested.
    pub open spec fn wf(self) -> bool {
        self.spec_created() <= self.spec_amount()
    }

    /// A batch is complete when every requested file was created and
    /// nothing failed.
    pub open spec fn done(self) -> bool {
        &&& !self.spec_failed()
        &&& self.spec_created() == self.spec_amount()
    }

    /// Starts a batch of `amount` files in directory `path` with the given
    /// extension: nothing created yet, nothing failed.
    pub fn new(amount: u32, path: String, extension: String, printflag: bool) -> (b: Batch)
        ensures
            b.wf(),
            b.spec_amount() == amount,
            b.spec_created() == 0,
            !b.spec_failed(),
            b.spec_path() == path@,
            b.spec_extension() == extension@,
            b.spec_printflag() == printflag,
    {
        Batch { amount, created: 0, failed: false, path, extension, printflag }
    }

    /// Hands out the next file to create, or `None` when the batch is
    /// complete or has failed.  The request carries a fresh random name,
    /// the joined path, and fresh random content.
    pub fn next_file(&self) -> (r: Option<GeneratedFile>)
        requires
            self.wf(),
        ensures
            r is Some <==> (!self.spec_failed() && self.spec_created() < self.spec_amount()),
            r matches Some(g) ==> g.wf(self.spec_path(), self.spec_extension()),
    {
        if self.failed || self.created >= self.amount {
            return None;
        }
        let name = generate_file_name();
        let formatted_name = format_file_name(name.as_str(), self.extension.as_str());
        let formatted_path = join_path(self.path.as_str(), formatted_name.as_str());
        let content = generate_data(CONTENT_LENGTH);
        Some(GeneratedFile { name, path: formatted_path, content })
    }

    /// Records that one more file was created and written.
    pub fn record_created(&mut self)
        requires
            old(self).wf(),
            !old(self).spec_failed(),
            old(self).spec_created() < old(self).spec_amount(),
        ensures
            final(self).wf(),
            final(self).spec_created() == old(self).spec_created() + 1,
            final(self).spec_amount() == old(self).spec_amount(),
            final(self).spec_failed() == old(self).spec_failed(),
            final(self).spec_path() == old(self).spec_path(),
            final(self).spec_extension() == old(self).spec_extension(),
            final(self).spec_printflag() == old(self).spec_printflag(),
    {
        self.created = self.created + 1;
    }

    /// Records that a creation or write failed.  The batch aborts: no
    /// further file is handed out, and the count of files already created
    /// stays as it was (they are left on disk untouched).
    pub fn record_failure(&mut self)
        requires
            old(self).wf(),
        ensures
            final(self).wf(),
            final(self).spec_failed(),
            final(self).spec_created() == old(self).spec_created(),
            final(self).spec_amount() == old(self).spec_amount(),
            final(self).spec_path() == old(self).spec_path(),
            final(self).spec_extension() == old(self).spec_extension(),
            final(self).spec_printflag() == old(self).spec_printflag(),
    {
        self.failed = true;
    }

    /// Whether the whole batch completed successfully.
    pub fn is_complete(&self) -> (r: bool)
        ensures
            r == self.done(),
    {
        !self.failed && self.created == self.amount
    }

    /// The number of files created and written so far.
    pub fn created_count(&self) -> (r: u32)
        ensures
            r == self.spec_created(),
    {
        self.created
    }

    /// Whether a progress line is to be printed per created file.
    pub fn should_print(&self) -> (r: bool)
        ensures
            r == self.spec_printflag(),
    {
        self.printflag
    }
}

/// A batch asked for zero files is complete from the start: it succeeds
/// with zero files created, and `next_file` hands out nothing.
pub proof fn lemma_zero_amount_complete(b: Batch)
    requires
        b.wf(),
        b.spec_amount() == 0,
        !b.spec_failed(),
    ensures
        b.done(),
        b.spec_created() == 0,
{
}

/// A complete batch created exactly as many files as were requested.
pub proof fn lemma_complete_count(b: Batch)
    requires
        b.done(),
    ensures
        b.spec_created() == b.spec_amount(),
{
}

} // verus!
