use vstd::prelude::*;

verus! {

/// Arguments of the Show operation: print the contents of one tag per file.
#[derive(Debug)]
pub struct ShowArgs {
    /// Audio file names; at least one.
    pub filename: Vec<String>,
    /// Which tag to operate on, counted from 1.
    pub tag_idx: usize,
}

/// Arguments of the Edit operation: set the supplied fields on one tag per
/// file, or on a brand-new tag.
#[derive(Debug)]
pub struct EditArgs {
    /// Audio file names; at least one.
    pub filename: Vec<String>,
    /// Create a new tag instead of mutating one in place.
    pub new_tag: bool,
    /// Which tag to operate on, counted from 1.
    pub tag_idx: usize,
    pub title: Option<String>,
    pub artist: Option<String>,
    pub album: Option<String>,
    pub track: Option<u32>,
    pub year: Option<u32>,
    pub comment: Option<String>,
    pub genre: Option<String>,
}

/// Arguments of the List operation: report how many tags each file carries.
#[derive(Debug)]
pub struct ListArgs {
    /// Audio file names; at least one.
    pub filename: Vec<String>,
}

/// The operation one invocation performs.
#[derive(Debug)]
pub enum PiggytagSubcommand {
    Show(ShowArgs),
    Edit(EditArgs),
    List(ListArgs),
}

/// A whole parsed command line.
#[derive(Debug)]
pub struct Args {
    pub subcommand: PiggytagSubcommand,
}

/// The arguments a well-formed invocation carries: at least one file, and a
/// tag index counted from 1.
pub open spec fn show_args_wf(args: ShowArgs) -> bool {
    args.filename@.len() >= 1 && args.tag_idx >= 1
}

pub open spec fn edit_args_wf(args: EditArgs) -> bool {
    args.filename@.len() >= 1 && args.tag_idx >= 1
}

pub open spec fn list_args_wf(args: ListArgs) -> bool {
    args.filename@.len() >= 1
}

} // verus!
