//! The macros that are built in, and the snippets that complete a call of a
//! macro.

use vstd::prelude::*;
use vstd::string::StringExecFns;

verus! {

/// The decimal digit for a number below ten.
pub open spec fn digit_char(d: nat) -> char {
    if d == 0 {
        '0'
    } else if d == 1 {
        '1'
    } else if d == 2 {
        '2'
    } else if d == 3 {
        '3'
    } else if d == 4 {
        '4'
    } else if d == 5 {
        '5'
    } else if d == 6 {
        '6'
    } else if d == 7 {
        '7'
    } else if d == 8 {
        '8'
    } else {
        '9'
    }
}

/// A number in decimal digits.
pub open spec fn decimal_text(n: nat) -> Seq<char>
    decreases n,
{
    if n < 10 {
        seq![digit_char(n)]
    } else {
        decimal_text(n / 10).push(digit_char(n % 10))
    }
}

/// The decimal digit for a number below ten, as a string.
fn digit(d: usize) -> (r: &'static str)
    requires
        d < 10,
    ensures
        r@ == seq![digit_char(d as nat)],
{
    proof {
        reveal_strlit("0");
        reveal_strlit("1");
        reveal_strlit("2");
        reveal_strlit("3");
        reveal_strlit("4");
        reveal_strlit("5");
        reveal_strlit("6");
        reveal_strlit("7");
        reveal_strlit("8");
        reveal_strlit("9");
    }
    let r = if d == 0 {
        "0"
    } else if d == 1 {
        "1"
    } else if d == 2 {
        "2"
    } else if d == 3 {
        "3"
    } else if d == 4 {
        "4"
    } else if d == 5 {
        "5"
    } else if d == 6 {
        "6"
    } else if d == 7 {
        "7"
    } else if d == 8 {
        "8"
    } else {
        "9"
    };
    assert(r@ =~= seq![digit_char(d as nat)]);
    r
}

/// Writes a number in decimal digits.
pub fn decimal(n: usize) -> (r: String)
    ensures
        r@ == decimal_text(n as nat),
    decreases n,
{
    if n < 10 {
        String::from_str(digit(n))
    } else {
        let mut r = decimal(n / 10);
        r.append(digit(n % 10));
        assert(r@ =~= decimal_text((n / 10) as nat).push(digit_char((n % 10) as nat)));
        r
    }
}

/// The placeholder for the argument with the number `i`, counted from 1.
pub open spec fn placeholder_text(i: nat, arg: Seq<char>) -> Seq<char> {
    "${"@ + decimal_text(i) + ":"@ + arg + "}"@
}

/// The placeholders for the first `n` arguments, with `, ` between them.
pub open spec fn placeholders_text(args: Seq<Seq<char>>, n: int) -> Seq<char>
    decreases n,
{
    if n <= 0 || n > args.len() {
        Seq::empty()
    } else if n == 1 {
        placeholder_text(1, args[0])
    } else {
        placeholders_text(args, n - 1) + ", "@ + placeholder_text(n as nat, args[n - 1])
    }
}

/// The snippet that completes a call: the name, and in parentheses a
/// placeholder for each argument.
pub open spec fn snippet_text(name: Seq<char>, args: Seq<Seq<char>>) -> Seq<char> {
    name + "("@ + placeholders_text(args, args.len() as int) + ")"@
}

/// The names of some arguments as character sequences.
pub open spec fn arg_texts(args: Seq<&str>) -> Seq<Seq<char>> {
    Seq::new(args.len(), |i: int| args[i]@)
}

/// Builds the snippet that completes a call of `func_name`.
pub fn build_args_snippet(func_name: String, arg_names: &Vec<&str>) -> (snippet: String)
    ensures
        snippet@ == snippet_text(func_name@, arg_texts(arg_names@)),
{
    let ghost args = arg_texts(arg_names@);
    let mut insert_text = func_name;
    insert_text.append("(");
    let ghost head = insert_text@;
    let mut i: usize = 0;
    assert(head + placeholders_text(args, 0) =~= head);
    while i < arg_names.len()
        invariant
            i <= arg_names@.len(),
            args == arg_texts(arg_names@),
            insert_text@ == head + placeholders_text(args, i as int),
        decreases arg_names.len() - i,
    {
        if i > 0 {
            insert_text.append(", ");
        }
        i = i + 1;
        insert_text.append("${");
        insert_text.append(decimal(i).as_str());
        insert_text.append(":");
        insert_text.append(arg_names[i - 1]);
        insert_text.append("}");
        assert(insert_text@ =~= head + placeholders_text(args, i as int));
    }
    insert_text.append(")");
    insert_text
}

/// A macro that is built in.
#[derive(Debug, Clone)]
pub struct BuiltinMacro {
    pub name: &'static str,
    pub args: Option<Vec<&'static str>>,
    pub docs_url: &'static str,
}

/// What completing a macro offers: the label shown, the text inserted, and
/// a word on what it is.
#[derive(Debug)]
pub struct Completion {
    pub label: String,
    pub insert_text: String,
    pub detail: String,
}

impl BuiltinMacro {
    /// What completing the macro offers: a snippet with its arguments where
    /// they are known, else its name.
    pub fn get_completion_items(&self) -> (item: Completion)
        ensures
            item.label@ == self.name@,
            item.detail@ == "Builtin macro"@,
            item.insert_text@ == (match self.args {
                Some(args) => snippet_text(self.name@, arg_texts(args@)),
                None => self.name@,
            }),
    {
        let insert_text = match &self.args {
            Some(args) => build_args_snippet(String::from_str(self.name), args),
            None => String::from_str(self.name),
        };
        Completion {
            label: String::from_str(self.name),
            insert_text,
            detail: String::from_str("Builtin macro"),
        }
    }
}

/// A macro that a project defines: where it is declared, as byte offsets,
/// its name, and its arguments without and with a default.
#[derive(Debug)]
pub struct Macro {
    pub declaration_selection: (u32, u32),
    pub declaration: (u32, u32),
    pub name: Option<String>,
    pub args: Vec<Option<String>>,
    pub default_args: Vec<(Option<String>, Option<String>)>,
}

/// The name of an argument; of one whose name is not known, the empty name.
pub open spec fn arg_name(arg: Option<String>) -> Seq<char> {
    match arg {
        Some(name) => name@,
        None => Seq::empty(),
    }
}

/// The names of some arguments.
pub open spec fn arg_names(args: Seq<Option<String>>) -> Seq<Seq<char>> {
    Seq::new(args.len(), |i: int| arg_name(args[i]))
}

/// The name under which a macro is called: its own, after the name of its
/// package and a dot where it comes from a package.
pub open spec fn identifier_text(package: Option<&str>, name: Seq<char>) -> Seq<char> {
    match package {
        Some(package) => package@ + "."@ + name,
        None => name,
    }
}

impl Macro {
    /// What completing the macro offers: a snippet with its arguments. A
    /// macro without a name offers nothing.
    pub fn get_completion_items(self, package_name: Option<&str>) -> (item: Option<Completion>)
        ensures
            item is Some <==> self.name is Some,
            item matches Some(c) ==> c.label@ == identifier_text(package_name, self.name->0@)
                && c.detail@ == "Macro"@ && c.insert_text@ == snippet_text(
                identifier_text(package_name, self.name->0@),
                arg_names(self.args@),
            ),
    {
        let macro_name = match &self.name {
            Some(name) => name.as_str(),
            None => {
                return None;
            },
        };
        let identifier = match package_name {
            Some(package) => {
                let mut identifier = String::from_str(package);
                identifier.append(".");
                identifier.append(macro_name);
                identifier
            },
            None => String::from_str(macro_name),
        };
        let mut names: Vec<&str> = Vec::new();
        let mut i: usize = 0;
        proof {
            reveal_strlit("");
        }
        while i < self.args.len()
            invariant
                i <= self.args@.len(),
                names@.len() == i,
                ""@ == Seq::<char>::empty(),
                forall|k: int| 0 <= k < i ==> (#[trigger] names@[k])@ == arg_name(self.args@[k]),
            decreases self.args.len() - i,
        {
            let name = match &self.args[i] {
                Some(name) => name.as_str(),
                None => "",
            };
            names.push(name);
            i += 1;
        }
        assert(arg_texts(names@) =~= arg_names(self.args@));
        let label = identifier.clone();
        let insert_text = build_args_snippet(identifier, &names);
        Some(Completion { label, insert_text, detail: String::from_str("Macro") })
    }
}

/// One of the macros that are built in.
fn builtin(name: &'static str, args: Option<Vec<&'static str>>, docs_url: &'static str) -> (m:
    BuiltinMacro)
    ensures
        m.name == name,
        m.args == args,
        m.docs_url == docs_url,
{
    BuiltinMacro { name, args, docs_url }
}

/// The arguments of a macro that takes one.
fn one_arg(arg: &'static str) -> (args: Option<Vec<&'static str>>)
    ensures
        args matches Some(v) && v@ == seq![arg],
{
    let mut v: Vec<&'static str> = Vec::new();
    v.push(arg);
    Some(v)
}

/// The macros that are built in: nine of them, the last two without known
/// arguments.
pub fn builtin_macros() -> (macros: Vec<BuiltinMacro>)
    ensures
        macros@.len() == 9,
        macros@[0].name@ == "source"@,
        macros@[7].name@ == "ref"@ && macros@[7].args is None,
        macros@[8].name@ == "config"@ && macros@[8].args is None,
        forall|i: int| 0 <= i < 7 ==> (#[trigger] macros@[i]).args is Some,
{
    let mut macros: Vec<BuiltinMacro> = Vec::new();
    let mut source_args: Vec<&'static str> = Vec::new();
    source_args.push("source_name");
    source_args.push("table_name");
    macros.push(
        builtin(
            "source",
            Some(source_args),
            "https://docs.getdbt.com/reference/dbt-jinja-functions/source",
        ),
    );
    macros.push(
        builtin(
            "env_var",
            one_arg("ENV_VAR"),
            "https://docs.getdbt.com/reference/dbt-jinja-functions/env_var",
        ),
    );
    macros.push(
        builtin(
            "var",
            one_arg("variable"),
            "https://docs.getdbt.com/reference/dbt-jinja-functions/var",
        ),
    );
    macros.push(
        builtin(
            "fromjson",
            one_arg("json_str"),
            "https://docs.getdbt.com/reference/dbt-jinja-functions/fromjson",
        ),
    );
    macros.push(
        builtin(
            "fromyaml",
            one_arg("yaml_str"),
            "https://docs.getdbt.com/reference/dbt-jinja-functions/fromyaml",
        ),
    );
    macros.push(
        builtin(
            "tojson",
            one_arg("object"),
            "https://docs.getdbt.com/reference/dbt-jinja-functions/tojson",
        ),
    );
    macros.push(
        builtin(
            "toyaml",
            one_arg("object"),
            "https://docs.getdbt.com/reference/dbt-jinja-functions/toyaml",
        ),
    );
    macros.push(
        builtin("ref", None, "https://docs.getdbt.com/reference/dbt-jinja-functions/ref"),
    );
    macros.push(
        builtin("config", None, "https://docs.getdbt.com/reference/dbt-jinja-functions/config"),
    );
    macros
}

} // verus!
