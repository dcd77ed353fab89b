//! Text of the on-screen overlay: the list of key bindings.
use vstd::prelude::*;

verus! {

/// "<key>: <description>".
pub open spec fn binding_line(key: Seq<char>, description: Seq<char>) -> Seq<char> {
    key + ": "@ + description
}

/// The bindings, one line each, separated by newlines.
pub open spec fn keybindings_text_of(bindings: Seq<(Seq<char>, Seq<char>)>) -> Seq<char>
    decreases bindings.len(),
{
    if bindings.len() == 0 {
        Seq::empty()
    } else if bindings.len() == 1 {
        binding_line(bindings[0].0, bindings[0].1)
    } else {
        keybindings_text_of(bindings.drop_last()) + "\n"@ + binding_line(bindings.last().0, bindings.last().1)
    }
}

pub open spec fn binding_views(bindings: Seq<(&str, &str)>) -> Seq<(Seq<char>, Seq<char>)> {
    bindings.map_values(|b: (&str, &str)| (b.0@, b.1@))
}

/// The key bindings as the overlay shows them, one "key: description" line
/// each.
pub fn keybindings_text(bindings: &[(&str, &str)]) -> (r: String)
    ensures
        r@ == keybindings_text_of(binding_views(bindings@)),
{
    let mut text = String::new();
    let mut i: usize = 0;
    while i < bindings.len()
        invariant
            i <= bindings@.len(),
            text@ == keybindings_text_of(binding_views(bindings@).take(i as int)),
        decreases bindings@.len() - i,
    {
        let ghost before = binding_views(bindings@).take(i as int);
        let ghost after = binding_views(bindings@).take(i + 1);
        proof {
            assert(after.drop_last() =~= before);
            assert(after.last() == (bindings@[i as int].0@, bindings@[i as int].1@));
        }
        if i > 0 {
            text.append("\n");
        }
        let (key, description) = bindings[i];
        text.append(key);
        text.append(": ");
        text.append(description);
        proof {
            if i == 0 {
                assert(text@ =~= binding_line(key@, description@));
            } else {
                assert(text@ =~= keybindings_text_of(before) + "\n"@ + binding_line(key@, description@));
            }
        }
        i += 1;
    }
    proof {
        assert(binding_views(bindings@).take(bindings@.len() as int) =~= binding_views(bindings@));
    }
    text
}

} // verus!
