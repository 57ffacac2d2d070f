//! Text rendered around results: the advisory messages the service returns
//! with create and edit responses.

use vstd::prelude::*;

use crate::converters::{labelled, labelled_text};

verus! {

/// One line per key and value of a message, in order.
pub open spec fn message_lines(m: Seq<(String, String)>) -> Seq<Seq<char>>
    decreases m.len(),
{
    if m.len() == 0 {
        Seq::empty()
    } else {
        message_lines(m.drop_last()).push(labelled(m.last().0@, m.last().1@))
    }
}

/// The lines of all messages, one message after another.
pub open spec fn all_message_lines(caveats: Seq<Vec<(String, String)>>) -> Seq<Seq<char>>
    decreases caveats.len(),
{
    if caveats.len() == 0 {
        Seq::empty()
    } else {
        all_message_lines(caveats.drop_last()) + message_lines(caveats.last()@)
    }
}

/// What is printed for the advisory messages: nothing where there are none,
/// else a heading and then one `key: value` line per entry.
pub open spec fn server_messages(caveats: Seq<Vec<(String, String)>>) -> Seq<Seq<char>> {
    if caveats.len() == 0 {
        Seq::empty()
    } else {
        seq!["Server messages:"@] + all_message_lines(caveats)
    }
}

/// The lines printed for the advisory messages of a response, each message
/// given as its entries in order.
pub fn server_message_lines(caveats: &Vec<Vec<(String, String)>>) -> (r: Vec<String>)
    ensures
        r@.map_values(|s: String| s@) == server_messages(caveats@),
{
    let mut lines: Vec<String> = Vec::new();
    if caveats.len() == 0 {
        proof {
            assert(lines@.map_values(|s: String| s@) =~= Seq::<Seq<char>>::empty());
        }
        return lines;
    }
    lines.push(String::from_str("Server messages:"));
    let mut i: usize = 0;
    proof {
        assert(lines@.map_values(|s: String| s@) =~= seq!["Server messages:"@]
            + all_message_lines(caveats@.take(0)));
    }
    while i < caveats.len()
        invariant
            i <= caveats@.len(),
            lines@.map_values(|s: String| s@) == seq!["Server messages:"@] + all_message_lines(caveats@.take(i as int)),
        decreases caveats@.len() - i,
    {
        let caveat = &caveats[i];
        let ghost before = lines@.map_values(|s: String| s@);
        let mut j: usize = 0;
        proof {
            assert(caveat@.take(0) =~= Seq::<(String, String)>::empty());
            assert(before =~= before + message_lines(caveat@.take(0)));
        }
        while j < caveat.len()
            invariant
                j <= caveat@.len(),
                lines@.map_values(|s: String| s@) == before + message_lines(caveat@.take(j as int)),
            decreases caveat@.len() - j,
        {
            let line = labelled_text(caveat[j].0.as_str(), caveat[j].1.as_str());
            let ghost old_lines = lines@;
            lines.push(line);
            proof {
                assert(caveat@.take(j + 1).drop_last() =~= caveat@.take(j as int));
                assert(lines@.map_values(|s: String| s@) =~= old_lines.map_values(|s: String| s@).push(line@));
            }
            j = j + 1;
        }
        proof {
            assert(caveat@.take(caveat@.len() as int) =~= caveat@);
            assert(caveats@.take(i + 1).drop_last() =~= caveats@.take(i as int));
            assert(caveats@.take(i + 1).last() == caveats@[i as int]);
        }
        i = i + 1;
    }
    proof {
        assert(caveats@.take(caveats@.len() as int) =~= caveats@);
    }
    lines
}

} // verus!
