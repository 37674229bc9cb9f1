//! The text-generation request's compute parts: framing the prompt, and
//! extracting the answer text from the parts of a response candidate. The
//! network call between the two lives outside the library.

use vstd::prelude::*;
use vstd::string::StringExecFns;

verus! {

/// The framing every prompt is wrapped in before it is sent.
pub open spec fn prompt_preamble() -> Seq<char> {
    "Answer the following using less than 3500 characters into total, including whitespace and new line characters. "@
}

/// Frame a user prompt for the generation request.
pub fn build_prompt(prompt: &str) -> (r: String)
    ensures
        r@ == prompt_preamble() + prompt@,
{
    let mut framed = String::from_str(
        "Answer the following using less than 3500 characters into total, including whitespace and new line characters. ",
    );
    framed.append(prompt);
    framed
}

/// The concatenation of all texts a candidate's parts carry, in order; a part
/// without text contributes nothing.
pub open spec fn joined_texts(parts: Seq<Option<String>>) -> Seq<char>
    decreases parts.len(),
{
    if parts.len() == 0 {
        Seq::empty()
    } else {
        (match parts.first() {
            Some(s) => s@,
            None => Seq::empty(),
        }) + joined_texts(parts.drop_first())
    }
}

/// Whether any part carries text at all.
pub open spec fn has_text(parts: Seq<Option<String>>) -> bool {
    exists|i: int| 0 <= i < parts.len() && parts[i] is Some
}

/// Join the texts of a response candidate's parts into the answer. `None`
/// exactly when no part carries text: an empty response is reported, never
/// shown as an empty answer.
pub fn extract_response_text(parts: &Vec<Option<String>>) -> (r: Option<String>)
    ensures
        r is Some <==> has_text(parts@),
        r matches Some(s) ==> s@ == joined_texts(parts@),
{
    let mut joined = String::new();
    let mut found = false;
    let mut i: usize = 0;
    proof {
        assert(parts@.take(0) =~= Seq::<Option<String>>::empty());
    }
    while i < parts.len()
        invariant
            i <= parts@.len(),
            joined@ == joined_texts(parts@.take(i as int)),
            found == has_text(parts@.take(i as int)),
        decreases parts@.len() - i,
    {
        proof {
            lemma_joined_texts_take(parts@, i as int);
        }
        let ghost had_text = has_text(parts@.take(i as int));
        match &parts[i] {
            Some(s) => {
                joined.append(s.as_str());
                found = true;
                proof {
                    assert(parts@.take(i + 1 as int)[i as int] is Some);
                    assert(has_text(parts@.take(i + 1 as int)));
                }
            },
            None => {
                proof {
                    if !had_text {
                        assert forall|j: int|
                            0 <= j < i + 1 implies #[trigger] parts@.take(i + 1 as int)[j]
                            is None by {
                            if j < i {
                                assert(parts@.take(i as int)[j] == parts@[j]);
                            }
                        }
                        assert(!has_text(parts@.take(i + 1 as int)));
                    } else {
                        let j = choose|j: int|
                            0 <= j < i && parts@.take(i as int)[j] is Some;
                        assert(parts@.take(i + 1 as int)[j] is Some);
                        assert(has_text(parts@.take(i + 1 as int)));
                    }
                }
            },
        }
        i = i + 1;
    }
    proof {
        assert(parts@.take(parts@.len() as int) =~= parts@);
    }
    if found {
        Some(joined)
    } else {
        None
    }
}

/// Joining one more part appends exactly that part's text.
proof fn lemma_joined_texts_take(parts: Seq<Option<String>>, i: int)
    requires
        0 <= i < parts.len(),
    ensures
        joined_texts(parts.take(i + 1)) == joined_texts(parts.take(i)) + (match parts[i] {
            Some(s) => s@,
            None => Seq::<char>::empty(),
        }),
    decreases i,
{
    if i == 0 {
        assert(parts.take(1).drop_first() =~= Seq::<Option<String>>::empty());
        assert(parts.take(0) =~= Seq::<Option<String>>::empty());
        assert(joined_texts(parts.take(1)) =~= joined_texts(parts.take(0)) + (match parts[0] {
            Some(s) => s@,
            None => Seq::<char>::empty(),
        }));
    } else {
        lemma_joined_texts_take(parts.drop_first(), i - 1);
        assert(parts.take(i + 1).drop_first() =~= parts.drop_first().take(i));
        assert(parts.take(i).drop_first() =~= parts.drop_first().take(i - 1));
        assert(parts.take(i + 1).first() == parts.first());
        assert(parts.take(i).first() == parts.first());
        assert(parts.drop_first()[i - 1] == parts[i]);
        assert(joined_texts(parts.take(i + 1)) =~= joined_texts(parts.take(i)) + (match parts[i] {
            Some(s) => s@,
            None => Seq::<char>::empty(),
        }));
    }
}

} // verus!
