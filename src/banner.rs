use vstd::prelude::*;
use vstd::string::StringExecFns;

use crate::text::push_char;

verus! {

/// The width limit of the speech bubble's rule.
pub const RULE_MAX: usize = 60;

/// The bubble's rule: one dash per character of the message, at most
/// `RULE_MAX` of them.
pub open spec fn dash_rule(msg: Seq<char>) -> Seq<char> {
    Seq::new(
        if msg.len() < RULE_MAX {
            msg.len()
        } else {
            RULE_MAX as nat
        },
        |i: int| '-',
    )
}

/// The cow that says the message.
pub open spec fn cow() -> Seq<char> {
    "    \\   ^__^\n     \\  (oo)\\______\n        (__)\\      )\\/\\\n           ||----w |\n           ||     ||\n\n\n"@
}

/// The whole banner: a blank line, the message between two rules, then the
/// cow and two blank lines.
pub open spec fn cowsay_text(msg: Seq<char>) -> Seq<char> {
    "\n  "@ + dash_rule(msg) + "\n< "@ + msg + " >\n  "@ + dash_rule(msg) + "\n"@ + cow()
}

/// The banner text of a cow saying `msg`, as it is printed.
pub fn cowsay(msg: &str) -> (r: String)
    ensures
        r@ == cowsay_text(msg@),
{
    let n = msg.unicode_len();
    let width: usize = if n < RULE_MAX {
        n
    } else {
        RULE_MAX
    };
    let mut rule = String::new();
    let mut i: usize = 0;
    while i < width
        invariant
            i <= width,
            width == dash_rule(msg@).len(),
            rule@ == Seq::new(i as nat, |j: int| '-'),
        decreases width - i,
    {
        push_char(&mut rule, '-');
        i = i + 1;
        proof {
            assert(rule@ =~= Seq::new(i as nat, |j: int| '-'));
        }
    }
    proof {
        assert(rule@ =~= dash_rule(msg@));
    }
    let mut text = String::new();
    text.append("\n  ");
    text.append(rule.as_str());
    text.append("\n< ");
    text.append(msg);
    text.append(" >\n  ");
    text.append(rule.as_str());
    text.append("\n");
    text.append(
        "    \\   ^__^\n     \\  (oo)\\______\n        (__)\\      )\\/\\\n           ||----w |\n           ||     ||\n\n\n",
    );
    proof {
        assert(text@ =~= cowsay_text(msg@));
    }
    text
}

} // verus!
