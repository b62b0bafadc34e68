//! The standard library registry: a name-keyed table of native functions,
//! populated at construction and immutable afterwards.

use vstd::prelude::*;
use vstd::string::*;
use crate::RuntimeError;
use crate::AbsErr;
use crate::stack::{StackValue, AbsValue, display_chars, mismatch, res_view};
use crate::text::{byte_len, byte_len_clamped};

verus! {

/// The built-in functions the registry can dispatch to.
#[derive(Debug, Clone, Copy, PartialEq, Eq, Structural)]
pub enum BuiltinKind {
    /// Renders its arguments and emits them as one output line.
    Print,
    /// The length of a string, in UTF-8 bytes.
    Len,
    /// The absolute value of an integer (wrapping for `i64::MIN`).
    Abs,
}

/// First match of a name in a registry table.
pub open spec fn assoc_find(table: Seq<(Seq<char>, BuiltinKind)>, name: Seq<char>) -> Option<
    BuiltinKind,
>
    decreases table.len(),
{
    if table.len() == 0 {
        None
    } else if table[0].0 == name {
        Some(table[0].1)
    } else {
        assoc_find(table.drop_first(), name)
    }
}

/// The output line `print` emits: the display forms of the arguments,
/// concatenated.
pub open spec fn print_line(args: Seq<AbsValue>) -> Seq<char>
    decreases args.len(),
{
    if args.len() == 0 {
        Seq::empty()
    } else {
        display_chars(args[0]) + print_line(args.drop_first())
    }
}

/// What `len` returns: the UTF-8 byte count of its first argument, which
/// must be a string; the count saturates at the machine limits.
pub open spec fn spec_len(args: Seq<AbsValue>) -> Result<AbsValue, AbsErr> {
    if args.len() == 0 {
        Err(AbsErr::InvalidOperation("len requires at least one argument"@))
    } else {
        match args[0] {
            AbsValue::Str(s) => Ok(
                AbsValue::Integer(
                    if byte_len_clamped(s) <= i64::MAX {
                        byte_len_clamped(s) as i64
                    } else {
                        i64::MAX
                    },
                ),
            ),
            _ => Err(mismatch("string"@, "other"@)),
        }
    }
}

/// What `abs` returns: the absolute value of its integer first argument,
/// wrapping to `i64::MIN` for `i64::MIN`.
pub open spec fn spec_abs(args: Seq<AbsValue>) -> Result<AbsValue, AbsErr> {
    if args.len() == 0 {
        Err(AbsErr::InvalidOperation("abs requires an argument"@))
    } else {
        match args[0] {
            AbsValue::Integer(i) => Ok(
                AbsValue::Integer(
                    if i == i64::MIN {
                        i64::MIN
                    } else if i < 0 {
                        (-i) as i64
                    } else {
                        i
                    },
                ),
            ),
            _ => Err(mismatch("numeric"@, "non-numeric"@)),
        }
    }
}

/// What a registry call returns, and the output lines it emits.
pub open spec fn spec_call(
    table: Seq<(Seq<char>, BuiltinKind)>,
    name: Seq<char>,
    args: Seq<AbsValue>,
) -> (Result<AbsValue, AbsErr>, Seq<Seq<char>>) {
    match assoc_find(table, name) {
        None => (Err(AbsErr::UndefinedFunction(name)), Seq::empty()),
        Some(BuiltinKind::Print) => (Ok(AbsValue::Unit), seq![print_line(args)]),
        Some(BuiltinKind::Len) => (spec_len(args), Seq::empty()),
        Some(BuiltinKind::Abs) => (spec_abs(args), Seq::empty()),
    }
}

/// Law: a name that the table does not hold fails with `UndefinedFunction`
/// carrying exactly the requested name, and emits nothing.
pub proof fn lemma_undefined_function(
    table: Seq<(Seq<char>, BuiltinKind)>,
    name: Seq<char>,
    args: Seq<AbsValue>,
)
    requires
        assoc_find(table, name) is None,
    ensures
        spec_call(table, name, args) == (
            Err::<AbsValue, AbsErr>(AbsErr::UndefinedFunction(name)),
            Seq::<Seq<char>>::empty(),
        ),
{
}

/// The standard library: a name-to-native-function table, immutable after
/// construction.
pub struct StdLib {
    functions: Vec<(String, BuiltinKind)>,
}

impl View for StdLib {
    type V = Seq<(Seq<char>, BuiltinKind)>;

    closed spec fn view(&self) -> Seq<(Seq<char>, BuiltinKind)> {
        self.functions@.map_values(|e: (String, BuiltinKind)| (e.0@, e.1))
    }
}

impl StdLib {
    /// The registry with the standard built-ins: `print`, `len`, `abs`.
    pub fn new() -> (lib: StdLib)
        ensures
            lib@ =~= seq![
                ("print"@, BuiltinKind::Print),
                ("len"@, BuiltinKind::Len),
                ("abs"@, BuiltinKind::Abs),
            ],
    {
        let mut functions: Vec<(String, BuiltinKind)> = Vec::new();
        functions.push((String::from_str("print"), BuiltinKind::Print));
        functions.push((String::from_str("len"), BuiltinKind::Len));
        functions.push((String::from_str("abs"), BuiltinKind::Abs));
        StdLib { functions }
    }

    fn lookup(&self, name: &str) -> (r: Option<BuiltinKind>)
        ensures
            r == assoc_find(self@, name@),
    {
        let key = String::from_str(name);
        let n = self.functions.len();
        proof {
            assert(self@.skip(0) =~= self@);
        }
        let mut i: usize = 0;
        while i < n
            invariant
                0 <= i <= n,
                n == self.functions.len(),
                key@ == name@,
                assoc_find(self@, name@) == assoc_find(self@.skip(i as int), name@),
            decreases n - i,
        {
            proof {
                assert(self@.skip(i as int)[0] == self@[i as int]);
                assert(self@.skip(i as int).drop_first() =~= self@.skip(i + 1));
            }
            if self.functions[i].0 == key {
                return Some(self.functions[i].1);
            }
            i += 1;
        }
        proof {
            assert(self@.skip(n as int) =~= Seq::<(Seq<char>, BuiltinKind)>::empty());
        }
        None
    }

    /// Calls a built-in by name. An unregistered name fails with
    /// `UndefinedFunction` carrying exactly the requested name. `print`
    /// appends its rendering to `out`; the other built-ins emit nothing.
    pub fn call(&self, name: &str, args: &[StackValue], out: &mut Vec<String>) -> (r: Result<
        StackValue,
        RuntimeError,
    >)
        ensures
            ({
                let (sr, lines) = spec_call(self@, name@, args@.map_values(|v: StackValue| v@));
                &&& res_view(r) == sr
                &&& final(out)@.map_values(|l: String| l@) =~= old(out)@.map_values(
                    |l: String| l@,
                ) + lines
            }),
    {
        let ghost avs = args@.map_values(|v: StackValue| v@);
        match self.lookup(name) {
            None => {
                Err(RuntimeError::UndefinedFunction(String::from_str(name)))
            },
            Some(BuiltinKind::Print) => {
                let mut line = String::new();
                let n = args.len();
                proof {
                    assert(avs.skip(0) =~= avs);
                }
                let mut i: usize = 0;
                while i < n
                    invariant
                        0 <= i <= n,
                        n == args.len(),
                        avs == args@.map_values(|v: StackValue| v@),
                        line@ + print_line(avs.skip(i as int)) =~= print_line(avs),
                    decreases n - i,
                {
                    proof {
                        assert(avs.skip(i as int)[0] == avs[i as int]);
                        assert(avs.skip(i as int).drop_first() =~= avs.skip(i + 1));
                        assert(avs[i as int] == args@[i as int]@);
                    }
                    let ghost line0 = line@;
                    let rendered = args[i].display_string();
                    line.append(rendered.as_str());
                    proof {
                        assert(print_line(avs.skip(i as int)) == display_chars(avs[i as int])
                            + print_line(avs.skip(i as int).drop_first()));
                        assert(line@ + print_line(avs.skip(i + 1)) =~= line0 + print_line(
                            avs.skip(i as int),
                        ));
                    }
                    i += 1;
                }
                proof {
                    assert(avs.skip(n as int) =~= Seq::<AbsValue>::empty());
                    assert(print_line(avs.skip(n as int)) =~= Seq::<char>::empty());
                    assert(line@ =~= print_line(avs));
                }
                out.push(line);
                proof {
                    assert(out@.map_values(|l: String| l@) =~= old(out)@.map_values(
                        |l: String| l@,
                    ) + seq![print_line(avs)]);
                }
                Ok(StackValue::Unit)
            },
            Some(BuiltinKind::Len) => {
                proof {
                    assert(avs.len() == args@.len());
                    if args@.len() > 0 {
                        assert(avs[0] == args@[0]@);
                    }
                }
                if args.len() == 0 {
                    return Err(
                        RuntimeError::InvalidOperation(
                            String::from_str("len requires at least one argument"),
                        ),
                    );
                }
                match &args[0] {
                    StackValue::String(s) => {
                        let bytes = byte_len(s.as_str());
                        if bytes as u64 <= i64::MAX as u64 {
                            Ok(StackValue::Integer(bytes as i64))
                        } else {
                            Ok(StackValue::Integer(i64::MAX))
                        }
                    },
                    _ => Err(
                        RuntimeError::TypeMismatch {
                            expected: String::from_str("string"),
                            found: String::from_str("other"),
                        },
                    ),
                }
            },
            Some(BuiltinKind::Abs) => {
                proof {
                    assert(avs.len() == args@.len());
                    if args@.len() > 0 {
                        assert(avs[0] == args@[0]@);
                    }
                }
                if args.len() == 0 {
                    return Err(
                        RuntimeError::InvalidOperation(String::from_str("abs requires an argument")),
                    );
                }
                match &args[0] {
                    StackValue::Integer(i) => {
                        if *i == i64::MIN {
                            Ok(StackValue::Integer(i64::MIN))
                        } else if *i < 0 {
                            Ok(StackValue::Integer(-(*i)))
                        } else {
                            Ok(StackValue::Integer(*i))
                        }
                    },
                    _ => Err(
                        RuntimeError::TypeMismatch {
                            expected: String::from_str("numeric"),
                            found: String::from_str("non-numeric"),
                        },
                    ),
                }
            },
        }
    }

    /// Whether a built-in of the given name is registered.
    pub fn contains(&self, name: &str) -> (r: bool)
        ensures
            r == (assoc_find(self@, name@) is Some),
    {
        self.lookup(name).is_some()
    }

    /// The names of every registered built-in, in registration order.
    pub fn functions(&self) -> (r: Vec<String>)
        ensures
            r@.map_values(|s: String| s@) =~= self@.map_values(
                |e: (Seq<char>, BuiltinKind)| e.0,
            ),
    {
        let n = self.functions.len();
        let mut names: Vec<String> = Vec::new();
        let mut i: usize = 0;
        while i < n
            invariant
                0 <= i <= n,
                n == self.functions.len(),
                names@.len() == i,
                forall|j: int| 0 <= j < i ==> #[trigger] names@[j]@ == self@[j].0,
            decreases n - i,
        {
            names.push(self.functions[i].0.clone());
            proof {
                assert(self@[i as int] == (self.functions@[i as int].0@, self.functions@[i as int].1));
                assert(names@[i as int]@ == self@[i as int].0);
            }
            i += 1;
        }
        proof {
            assert(names@.map_values(|s: String| s@) =~= self@.map_values(
                |e: (Seq<char>, BuiltinKind)| e.0,
            ));
        }
        names
    }
}

impl Default for StdLib {
    fn default() -> (lib: StdLib)
        ensures
            lib@ =~= seq![
                ("print"@, BuiltinKind::Print),
                ("len"@, BuiltinKind::Len),
                ("abs"@, BuiltinKind::Abs),
            ],
    {
        StdLib::new()
    }
}

} // verus!
