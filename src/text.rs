use vstd::prelude::*;
use crate::{FunctionDecl, GlobalDecl, Module, ModuleView};

verus! {

/// A header line `prefix value"`, left out where `value` is empty.
pub open spec fn optional_line(prefix: Seq<char>, value: Seq<char>) -> Seq<char> {
    if value.len() == 0 {
        Seq::empty()
    } else {
        prefix + value + "\"\n"@
    }
}

/// The module's identifier line, then its data layout, target triple and
/// inline assembly where they are set.
pub open spec fn header_text(v: ModuleView) -> Seq<char> {
    "; ModuleID = '"@ + v.name + "'\n"@ + optional_line("target datalayout = \""@, v.data_layout)
        + optional_line("target triple = \""@, v.target) + optional_line(
        "module asm \""@,
        v.inline_asm,
    )
}

/// One line per global variable, in order.
pub open spec fn globals_text(gs: Seq<GlobalDecl>) -> Seq<char>
    decreases gs.len(),
{
    if gs.len() == 0 {
        Seq::empty()
    } else {
        globals_text(gs.drop_last()) + "@"@ + gs.last().name + " = external global\n"@
    }
}

/// One declaration line per function, in order.
pub open spec fn functions_text(fs: Seq<FunctionDecl>) -> Seq<char>
    decreases fs.len(),
{
    if fs.len() == 0 {
        Seq::empty()
    } else {
        functions_text(fs.drop_last()) + "declare @"@ + fs.last().name + "\n"@
    }
}

/// The textual summary of a module.
pub open spec fn ir_text(v: ModuleView) -> Seq<char> {
    header_text(v) + globals_text(v.globals) + functions_text(v.functions)
}

fn append_optional_line(text: &mut String, prefix: &str, value: &String)
    ensures
        final(text)@ == old(text)@ + optional_line(prefix@, value@),
{
    if !value.as_str().is_empty() {
        text.append(prefix);
        text.append(value.as_str());
        text.append("\"\n");
        proof {
            assert(final(text)@ =~= old(text)@ + optional_line(prefix@, value@));
        }
    } else {
        proof {
            assert(final(text)@ =~= old(text)@ + optional_line(prefix@, value@));
        }
    }
}

impl<'a> Module<'a> {
    /// A textual summary of the module, the one that `print` writes out: its
    /// identifier, data layout, target and inline assembly, then one line per
    /// global and per function, without types. It is not textual IR.
    pub fn ir_text(&self) -> (r: String)
        ensures
            r@ == ir_text(self@),
    {
        let mut text = String::new();
        text.append("; ModuleID = '");
        text.append(self.name.as_str());
        text.append("'\n");
        append_optional_line(&mut text, "target datalayout = \"", &self.data_layout);
        append_optional_line(&mut text, "target triple = \"", &self.target);
        append_optional_line(&mut text, "module asm \"", &self.inline_asm);
        proof {
            assert(text@ =~= header_text(self@));
        }
        let ghost head = text@;
        let n = self.globals.len();
        let mut i: usize = 0;
        while i < n
            invariant
                n == self.globals.len(),
                n == self@.globals.len(),
                0 <= i <= n,
                text@ == head + globals_text(self@.globals.take(i as int)),
            decreases n - i,
        {
            text.append("@");
            text.append(self.globals[i].name.as_str());
            text.append(" = external global\n");
            proof {
                let gs = self@.globals.take(i as int + 1);
                assert(gs.drop_last() =~= self@.globals.take(i as int));
                assert(gs.last().name == self.globals@[i as int].name@);
                assert(text@ =~= head + globals_text(gs));
            }
            i = i + 1;
        }
        proof {
            assert(self@.globals.take(n as int) =~= self@.globals);
        }
        let ghost mid = text@;
        let m = self.functions.len();
        let mut j: usize = 0;
        while j < m
            invariant
                m == self.functions.len(),
                m == self@.functions.len(),
                0 <= j <= m,
                text@ == mid + functions_text(self@.functions.take(j as int)),
            decreases m - j,
        {
            text.append("declare @");
            text.append(self.functions[j].name.as_str());
            text.append("\n");
            proof {
                let fs = self@.functions.take(j as int + 1);
                assert(fs.drop_last() =~= self@.functions.take(j as int));
                assert(fs.last().name == self.functions@[j as int].name@);
                assert(text@ =~= mid + functions_text(fs));
            }
            j = j + 1;
        }
        proof {
            assert(self@.functions.take(m as int) =~= self@.functions);
            assert(text@ =~= ir_text(self@));
        }
        text
    }
}

} // verus!
