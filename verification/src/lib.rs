use vstd::prelude::*;
use crate::numfmt::{dec_digits, push_decimal, is_dec_text, lemma_dec_digits_denote};

pub mod capability;
pub mod cpu;
pub mod exceptions;
pub mod io;
pub mod memory;
pub mod numfmt;
pub mod uart;

verus! {

/// What the kernel prints before it stops on a panic at `location` (file and line) with
/// `message`: `Aborting: line <line>, file <file>: <message>`, or
/// `Aborting: no information available.` where the location is unknown, ended by `\r\n`.
pub open spec fn panic_text(location: Option<(Seq<char>, u32)>, message: Seq<char>) -> Seq<char> {
    "Aborting: "@ + match location {
        Some((file, line)) => "line "@ + dec_digits(line as nat) + ", file "@ + file + ": "@ + message
            + "\r\n"@,
        None => "no information available."@ + "\r\n"@,
    }
}

/// With a location, the panic text gives the line as `{}` writes it, a decimal text that
/// denotes the whole line number, then the file and the message.
pub proof fn lemma_panic_text_denotes(file: Seq<char>, line: u32, message: Seq<char>)
    ensures
        exists|d: Seq<char>|
            #![trigger is_dec_text(d, line as nat)]
            is_dec_text(d, line as nat) && panic_text(Some((file, line)), message) == "Aborting: line "@ + d
                + ", file "@ + file + ": "@ + message + "\r\n"@,
{
    lemma_dec_digits_denote(line as nat);
    let d = dec_digits(line as nat);
    assert(is_dec_text(d, line as nat));
    reveal_strlit("Aborting: line ");
    reveal_strlit("Aborting: ");
    reveal_strlit("line ");
    assert(panic_text(Some((file, line)), message) =~= "Aborting: line "@ + d + ", file "@ + file + ": "@
        + message + "\r\n"@);
}

/// The text that the panic handler prints before the kernel stops.
pub fn panic_message(location: Option<(&str, u32)>, message: &str) -> (r: String)
    ensures
        r@ == panic_text(
            match location {
                Some((file, line)) => Some((file@, line)),
                None => None,
            },
            message@,
        ),
{
    let mut out = String::new();
    out.append("Aborting: ");
    match location {
        Some((file, line)) => {
            out.append("line ");
            push_decimal(&mut out, line);
            out.append(", file ");
            out.append(file);
            out.append(": ");
            out.append(message);
            out.append("\r\n");
            proof {
                assert(out@ =~= panic_text(Some((file@, line)), message@));
            }
        },
        None => {
            out.append("no information available.");
            out.append("\r\n");
            proof {
                assert(out@ =~= panic_text(None, message@));
            }
        },
    }
    out
}

} // verus!
