//! Selection of the channels to play from the positional arguments.
//!
//! The program takes one or two channel identifiers.  With a single channel
//! the controller plays it without rotation; with two it rotates between
//! them.  Missing or empty identifiers are fatal startup errors, surfaced
//! before anything else runs.

use vstd::prelude::*;

verus! {

/// Why the command line is unusable.
#[derive(Clone, Copy, Debug, PartialEq, Eq, Structural)]
pub enum ArgsError {
    /// No channel identifier was given at all.
    MissingChannel,
    /// A selected channel identifier is the empty string.
    EmptyChannel,
}

/// How many of the leading arguments are taken as channels: up to two.
pub open spec fn selected_count(n: nat) -> nat {
    if n >= 2 {
        2
    } else {
        n
    }
}

/// All of the first `k` arguments are non-empty.
pub open spec fn selected_non_empty(args: Seq<Seq<char>>, k: nat) -> bool {
    forall|i: int| 0 <= i < k ==> args[i].len() > 0
}

/// Selects the channels to play from the positional arguments (without the
/// program name): the first argument, and the second if there is one;
/// anything further is ignored.  No argument at all is `MissingChannel`; an
/// empty string among the selected arguments is `EmptyChannel`; otherwise
/// the selected channels are returned in order.
pub fn channels_from_args(args: &Vec<String>) -> (r: Result<Vec<String>, ArgsError>)
    ensures
        r is Ok <==> args@.len() >= 1 && selected_non_empty(
            args.deep_view(),
            selected_count(args@.len()),
        ),
        r matches Ok(channels) ==> channels.deep_view() == args.deep_view().subrange(
            0,
            selected_count(args@.len()) as int,
        ),
        args@.len() == 0 ==> r == Err::<Vec<String>, ArgsError>(ArgsError::MissingChannel),
        args@.len() >= 1 && !selected_non_empty(args.deep_view(), selected_count(args@.len()))
            ==> r == Err::<Vec<String>, ArgsError>(ArgsError::EmptyChannel),
{
    if args.len() == 0 {
        return Err(ArgsError::MissingChannel);
    }
    let take: usize = if args.len() >= 2 {
        2
    } else {
        1
    };
    let mut channels: Vec<String> = Vec::new();
    let mut i: usize = 0;
    while i < take
        invariant
            take == selected_count(args@.len()),
            take <= args@.len(),
            0 <= i <= take,
            channels@.len() == i,
            forall|j: int| 0 <= j < i ==> channels@[j]@ == args@[j]@,
            forall|j: int| 0 <= j < i ==> args@[j]@.len() > 0,
        decreases take - i,
    {
        if args[i].as_str().is_empty() {
            proof {
                assert(args.deep_view()[i as int] == args@[i as int]@);
                assert(!selected_non_empty(args.deep_view(), selected_count(args@.len())));
            }
            return Err(ArgsError::EmptyChannel);
        }
        channels.push(args[i].clone());
        i = i + 1;
    }
    proof {
        assert forall|j: int| 0 <= j < take implies args.deep_view()[j].len() > 0 by {
            assert(args.deep_view()[j] == args@[j]@);
        }
        assert(channels.deep_view() =~= args.deep_view().subrange(0, take as int)) by {
            assert forall|j: int| 0 <= j < take implies channels.deep_view()[j]
                == args.deep_view()[j] by {
                assert(channels.deep_view()[j] == channels@[j]@);
                assert(args.deep_view()[j] == args@[j]@);
            }
        }
    }
    Ok(channels)
}

} // verus!
