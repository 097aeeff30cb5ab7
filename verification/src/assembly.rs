use vstd::prelude::*;

use crate::origin::Origin;
use crate::stack::StackDepth;
use crate::text::{debug_str, decimal, push_decimal, signed_decimal, str_debug, texts};

verus! {

/// A reference to a syntax tree node of a script module: the node's
/// document, and its entry in the document by index and version.
#[derive(Clone, Copy, PartialEq, Eq, Structural, Debug)]
pub struct NodeRef {
    pub id: u64,
    pub index: usize,
    pub version: usize,
}

/// The metadata of a script package, by name and version.
#[derive(Clone, Copy, Debug)]
pub struct PackageMeta {
    pub name: &'static str,
    pub version: &'static str,
}

/// The operator of an [Cmd::Op] command.
#[derive(Clone, Copy, PartialEq, Eq, Structural, Debug)]
pub enum OpCmd {
    Clone,
    Neg,
    Not,
    Assign,
    AddAssign,
    SubAssign,
    MulAssign,
    DivAssign,
    BitAndAssign,
    BitOrAssign,
    BitXorAssign,
    ShlAssign,
    ShrAssign,
    RemAssign,
    Equal,
    NotEqual,
    Greater,
    GreaterOrEqual,
    Lesser,
    LesserOrEqual,
    And,
    Or,
    Add,
    Sub,
    Mul,
    Div,
    BitAnd,
    BitOr,
    BitXor,
    Shl,
    Shr,
    Rem,
}

impl OpCmd {
    /// How listings name the operator.
    pub open spec fn spec_name(self) -> Seq<char> {
        match self {
            OpCmd::Clone => "clone"@,
            OpCmd::Neg => "neg"@,
            OpCmd::Not => "not"@,
            OpCmd::Assign => "assign"@,
            OpCmd::AddAssign => "add-assign"@,
            OpCmd::SubAssign => "sub-assign"@,
            OpCmd::MulAssign => "mul-assign"@,
            OpCmd::DivAssign => "div-assign"@,
            OpCmd::BitAndAssign => "bit-and-assign"@,
            OpCmd::BitOrAssign => "bit-or-assign"@,
            OpCmd::BitXorAssign => "bit-xor-assign"@,
            OpCmd::ShlAssign => "shl-assign"@,
            OpCmd::ShrAssign => "shr-assign"@,
            OpCmd::RemAssign => "rem-assign"@,
            OpCmd::Equal => "equal"@,
            OpCmd::NotEqual => "not-equal"@,
            OpCmd::Greater => "greater"@,
            OpCmd::GreaterOrEqual => "greater_or_equal"@,
            OpCmd::Lesser => "lesser"@,
            OpCmd::LesserOrEqual => "lesser-or-equal"@,
            OpCmd::And => "and"@,
            OpCmd::Or => "or"@,
            OpCmd::Add => "add"@,
            OpCmd::Sub => "sub"@,
            OpCmd::Mul => "mul"@,
            OpCmd::Div => "div"@,
            OpCmd::BitAnd => "bit-and"@,
            OpCmd::BitOr => "bit-or"@,
            OpCmd::BitXor => "bit-xor"@,
            OpCmd::Shl => "shl"@,
            OpCmd::Shr => "shr"@,
            OpCmd::Rem => "rem"@,
        }
    }

    /// How listings name the operator.
    pub fn name(&self) -> (r: &'static str)
        ensures
            r@ == self.spec_name(),
    {
        match self {
            OpCmd::Clone => "clone",
            OpCmd::Neg => "neg",
            OpCmd::Not => "not",
            OpCmd::Assign => "assign",
            OpCmd::AddAssign => "add-assign",
            OpCmd::SubAssign => "sub-assign",
            OpCmd::MulAssign => "mul-assign",
            OpCmd::DivAssign => "div-assign",
            OpCmd::BitAndAssign => "bit-and-assign",
            OpCmd::BitOrAssign => "bit-or-assign",
            OpCmd::BitXorAssign => "bit-xor-assign",
            OpCmd::ShlAssign => "shl-assign",
            OpCmd::ShrAssign => "shr-assign",
            OpCmd::RemAssign => "rem-assign",
            OpCmd::Equal => "equal",
            OpCmd::NotEqual => "not-equal",
            OpCmd::Greater => "greater",
            OpCmd::GreaterOrEqual => "greater_or_equal",
            OpCmd::Lesser => "lesser",
            OpCmd::LesserOrEqual => "lesser-or-equal",
            OpCmd::And => "and",
            OpCmd::Or => "or",
            OpCmd::Add => "add",
            OpCmd::Sub => "sub",
            OpCmd::Mul => "mul",
            OpCmd::Div => "div",
            OpCmd::BitAnd => "bit-and",
            OpCmd::BitOr => "bit-or",
            OpCmd::BitXor => "bit-xor",
            OpCmd::Shl => "shl",
            OpCmd::Shr => "shr",
            OpCmd::Rem => "rem",
        }
    }
}

} // verus!

verus! {

/// The index of a command in an assembly.
pub type CmdIndex = usize;

/// The command index that returns from the function.
pub const RET: CmdIndex = usize::MAX;

/// A command of the script interpreter. The comments give what the command
/// does to the stack.
#[derive(Clone, Copy, Debug)]
pub enum Cmd {
    /// (condition) -> (): jumps to `otherwise` when the condition is false.
    IfTrue { otherwise: CmdIndex },
    /// (condition) -> (): jumps to `otherwise` when the condition is true.
    IfFalse { otherwise: CmdIndex },
    /// () -> (): jumps to `command`.
    Jump { command: CmdIndex },
    /// (range) -> (range, iteration): jumps to `finish` at the range's end.
    Iterate { finish: CmdIndex },
    /// (depth, ...) -> (nil, ..., depth)
    Lift { depth: StackDepth },
    /// (depth, ..., top) -> (top, ..., depth)
    Swap { depth: StackDepth },
    /// (depth, ...) -> (depth, ..., depth)
    Dup { depth: StackDepth },
    /// (..., depth, ...) -> (..., depth)
    Shrink { depth: StackDepth },
    /// () -> (nil)
    PushNil,
    /// () -> (bool)
    PushTrue,
    /// () -> (bool)
    PushFalse,
    /// () -> (usize)
    PushUsize { value: usize },
    /// () -> (isize)
    PushIsize { value: isize },
    /// () -> (float); the number is held by its bit pattern.
    PushFloat { value: u64 },
    /// () -> (string)
    PushString { string_index: usize },
    /// () -> (package)
    PushPackage { package: PackageMeta },
    /// () -> (closure)
    PushClosure { index: usize },
    /// () -> (fn)
    PushFn { index: usize },
    /// () -> (struct)
    PushStruct,
    /// (lhs, rhs) -> (range)
    Range,
    /// (fn, closure) -> (fn)
    Bind { index: usize },
    /// (items..) -> (result)
    Concat { items: usize },
    /// (lhs) -> (result)
    Field { field_index: usize },
    /// (lhs) -> (result)
    Len,
    /// (lhs) -> (bool)
    Query,
    /// (lhs, rhs) -> (result), (rhs, lhs) -> () or (rhs) -> (result)
    Op(OpCmd),
    /// (args.., lhs) -> (result)
    Invoke { arity: usize },
    /// (index, lhs) -> (result)
    Index,
}

/// The listing text of a jump target: its index, or `ret` for a target
/// past the `len` commands.
pub open spec fn target_text(target: usize, len: usize) -> Seq<char> {
    if target < len {
        decimal(target as nat)
    } else {
        "ret"@
    }
}

/// The listing text of the string at `index` of `strings`: its index and
/// its `Debug` form, or `?` when there is no such string.
pub open spec fn string_text(strings: Seq<Seq<char>>, index: usize) -> Seq<char> {
    "string"@ + decimal(index as nat) + if index < strings.len() {
        "("@ + str_debug(strings[index as int]) + ")"@
    } else {
        "(?)"@
    }
}

impl Cmd {
    /// The listing line of this command at index `cmd` of an assembly of
    /// `len` commands and with the string table `strings`; `float_text` is
    /// how the number of a `PushFloat` command is written.
    pub open spec fn spec_listing(
        self,
        cmd: usize,
        len: usize,
        strings: Seq<Seq<char>>,
        float_text: Seq<char>,
    ) -> Seq<char> {
        decimal(cmd as nat) + ": "@ + match self {
            Cmd::IfTrue { otherwise } => "if-true "@ + target_text(otherwise, len),
            Cmd::IfFalse { otherwise } => "if-false "@ + target_text(otherwise, len),
            Cmd::Jump { command } => "jump "@ + target_text(command, len),
            Cmd::Iterate { finish } => "iter "@ + target_text(finish, len),
            Cmd::Lift { depth } => "lift s"@ + decimal(depth as nat),
            Cmd::Swap { depth } => "swap s"@ + decimal(depth as nat),
            Cmd::Dup { depth } => "dup s"@ + decimal(depth as nat),
            Cmd::Shrink { depth } => "shrink "@ + decimal(depth as nat),
            Cmd::PushNil => "push nil"@,
            Cmd::PushTrue => "push true"@,
            Cmd::PushFalse => "push false"@,
            Cmd::PushUsize { value } => "push "@ + decimal(value as nat) + "usize"@,
            Cmd::PushIsize { value } => "push "@ + signed_decimal(value as int) + "isize"@,
            Cmd::PushFloat { .. } => "push "@ + float_text + "float"@,
            Cmd::PushString { string_index } => "push "@ + string_text(strings, string_index),
            Cmd::PushPackage { package } => "push \u{2039}"@ + package.name@ + "@"@ + package.version@
                + "\u{203a}"@,
            Cmd::PushClosure { index } => "push closure"@ + decimal(index as nat),
            Cmd::PushFn { index } => "push fn"@ + decimal(index as nat),
            Cmd::PushStruct => "push struct"@,
            Cmd::Range => "range"@,
            Cmd::Bind { index } => "bind "@ + decimal(index as nat),
            Cmd::Concat { items } => "concat "@ + decimal(items as nat),
            Cmd::Field { field_index } => "field "@ + string_text(strings, field_index),
            Cmd::Len => "len"@,
            Cmd::Query => "query"@,
            Cmd::Op(op) => op.spec_name(),
            Cmd::Invoke { arity } => "invoke "@ + decimal(arity as nat),
            Cmd::Index => "index"@,
        }
    }
}

fn push_target(s: &mut String, target: usize, len: usize)
    ensures
        final(s)@ == old(s)@ + target_text(target, len),
{
    if target < len {
        push_decimal(s, target);
    } else {
        s.append("ret");
    }
}

fn push_string_ref(s: &mut String, strings: &Vec<String>, index: usize)
    ensures
        final(s)@ == old(s)@ + string_text(texts(strings@), index),
{
    s.append("string");
    push_decimal(s, index);
    if index < strings.len() {
        s.append("(");
        let text = debug_str(strings[index].as_str());
        s.append(text.as_str());
        s.append(")");
    } else {
        s.append("(?)");
    }
    proof {
        assert(old(s)@ + string_text(texts(strings@), index) =~= s@);
    }
}

impl Cmd {
    /// The listing line of this command at index `cmd` of an assembly of
    /// `len` commands and with the string table `strings`; `float_text` is
    /// how the number of a `PushFloat` command is written.
    pub fn listing(&self, cmd: usize, len: usize, strings: &Vec<String>, float_text: &str) -> (r:
        String)
        ensures
            r@ == self.spec_listing(cmd, len, texts(strings@), float_text@),
    {
        let mut r = String::new();
        push_decimal(&mut r, cmd);
        r.append(": ");
        match self {
            Cmd::IfTrue { otherwise } => {
                r.append("if-true ");
                push_target(&mut r, *otherwise, len);
            },
            Cmd::IfFalse { otherwise } => {
                r.append("if-false ");
                push_target(&mut r, *otherwise, len);
            },
            Cmd::Jump { command } => {
                r.append("jump ");
                push_target(&mut r, *command, len);
            },
            Cmd::Iterate { finish } => {
                r.append("iter ");
                push_target(&mut r, *finish, len);
            },
            Cmd::Lift { depth } => {
                r.append("lift s");
                push_decimal(&mut r, *depth);
            },
            Cmd::Swap { depth } => {
                r.append("swap s");
                push_decimal(&mut r, *depth);
            },
            Cmd::Dup { depth } => {
                r.append("dup s");
                push_decimal(&mut r, *depth);
            },
            Cmd::Shrink { depth } => {
                r.append("shrink ");
                push_decimal(&mut r, *depth);
            },
            Cmd::PushNil => r.append("push nil"),
            Cmd::PushTrue => r.append("push true"),
            Cmd::PushFalse => r.append("push false"),
            Cmd::PushUsize { value } => {
                r.append("push ");
                push_decimal(&mut r, *value);
                r.append("usize");
            },
            Cmd::PushIsize { value } => {
                r.append("push ");
                crate::text::push_signed_decimal(&mut r, *value);
                r.append("isize");
            },
            Cmd::PushFloat { .. } => {
                r.append("push ");
                r.append(float_text);
                r.append("float");
            },
            Cmd::PushString { string_index } => {
                r.append("push ");
                push_string_ref(&mut r, strings, *string_index);
            },
            Cmd::PushPackage { package } => {
                r.append("push \u{2039}");
                r.append(package.name);
                r.append("@");
                r.append(package.version);
                r.append("\u{203a}");
            },
            Cmd::PushClosure { index } => {
                r.append("push closure");
                push_decimal(&mut r, *index);
            },
            Cmd::PushFn { index } => {
                r.append("push fn");
                push_decimal(&mut r, *index);
            },
            Cmd::PushStruct => r.append("push struct"),
            Cmd::Range => r.append("range"),
            Cmd::Bind { index } => {
                r.append("bind ");
                push_decimal(&mut r, *index);
            },
            Cmd::Concat { items } => {
                r.append("concat ");
                push_decimal(&mut r, *items);
            },
            Cmd::Field { field_index } => {
                r.append("field ");
                push_string_ref(&mut r, strings, *field_index);
            },
            Cmd::Len => r.append("len"),
            Cmd::Query => r.append("query"),
            Cmd::Op(op) => r.append(op.name()),
            Cmd::Invoke { arity } => {
                r.append("invoke ");
                push_decimal(&mut r, *arity);
            },
            Cmd::Index => r.append("index"),
        }
        proof {
            assert(r@ =~= self.spec_listing(cmd, len, texts(strings@), float_text@));
        }
        r
    }
}

} // verus!

verus! {

/// The origins of a command, by their indices in the assembly's table of
/// origins.
#[derive(Clone, Debug)]
pub struct Source {
    pub origins: Vec<usize>,
}

/// The subroutines of an assembly: the syntax nodes of their declarations
/// while the assembly is being built, or just their number.
#[derive(Clone, Debug)]
pub enum Subroutines {
    Refs(Vec<NodeRef>),
    Len(usize),
}

impl Subroutines {
    /// The number of subroutines.
    pub open spec fn spec_len(&self) -> nat {
        match self {
            Subroutines::Refs(refs) => refs@.len(),
            Subroutines::Len(len) => *len as nat,
        }
    }

    /// The number of subroutines.
    pub fn len(&self) -> (r: usize)
        ensures
            r == self.spec_len(),
    {
        match self {
            Subroutines::Refs(refs) => refs.len(),
            Subroutines::Len(len) => *len,
        }
    }

    /// Adds the subroutine declared at `fn_ref` to an assembly that is being
    /// built.
    pub fn push(&mut self, fn_ref: NodeRef)
        requires
            *old(self) is Refs,
        ensures
            *final(self) matches Subroutines::Refs(refs) && *old(self) matches Subroutines::Refs(
                before,
            ) && refs@ == before@.push(fn_ref),
    {
        match self {
            Subroutines::Refs(refs) => refs.push(fn_ref),
            Subroutines::Len(_) => {},
        }
    }

    /// Whether two lists describe the same subroutines: equal references,
    /// or equal numbers where one side has only the number.
    pub open spec fn same(&self, other: &Subroutines) -> bool {
        match (self, other) {
            (Subroutines::Refs(a), Subroutines::Refs(b)) => a@ == b@,
            _ => self.spec_len() == other.spec_len(),
        }
    }

    /// Whether two lists describe the same subroutines: equal references,
    /// or equal numbers where one side has only the number.
    pub fn eq(&self, other: &Subroutines) -> (r: bool)
        ensures
            r == self.same(other),
    {
        match (self, other) {
            (Subroutines::Refs(a), Subroutines::Refs(b)) => same_refs(a, b),
            _ => self.len() == other.len(),
        }
    }
}

fn same_refs(a: &Vec<NodeRef>, b: &Vec<NodeRef>) -> (r: bool)
    ensures
        r == (a@ == b@),
{
    if a.len() != b.len() {
        return false;
    }
    let mut i: usize = 0;
    while i < a.len()
        invariant
            a@.len() == b@.len(),
            i <= a@.len(),
            forall|k: int| 0 <= k < i ==> a@[k] == b@[k],
        decreases a.len() - i,
    {
        if a[i] != b[i] {
            proof {
                assert(a@[i as int] != b@[i as int]);
            }
            return false;
        }
        i = i + 1;
    }
    proof {
        assert(a@ =~= b@);
    }
    true
}

/// The compiled code of a script function.
#[derive(Clone, Debug)]
pub struct Assembly {
    /// The number of the function's parameters.
    pub arity: StackDepth,
    /// The stack frame size the function needs.
    pub frame: StackDepth,
    /// The number of the function's closures, counting the one for the
    /// function itself.
    pub closures: usize,
    pub subroutines: Subroutines,
    pub strings: Vec<String>,
    /// The source code ranges the commands refer to; the first one is where
    /// the function is declared.
    pub origins: Vec<Origin>,
    pub commands: Vec<Cmd>,
    /// The origins of each command, by command index.
    pub sources: Vec<Source>,
}

/// The origin at `index` of `origins`, or the nil origin.
pub open spec fn origin_at(origins: Seq<Origin>, index: usize) -> Origin {
    if index < origins.len() {
        origins[index as int]
    } else {
        Origin::spec_nil()
    }
}

fn get_origin(origins: &Vec<Origin>, index: usize) -> (r: Origin)
    ensures
        r == origin_at(origins@, index),
{
    if index < origins.len() {
        origins[index]
    } else {
        Origin::nil()
    }
}

impl Assembly {
    /// An assembly without commands for a function of `arity` parameters
    /// and `closures` closures, declared at `origin`. An assembly that is
    /// being built (`builder`) collects references to its subroutines,
    /// otherwise it knows only their number, `subroutines`.
    pub fn new(builder: bool, arity: StackDepth, closures: usize, subroutines: usize, origin: Origin) -> (a:
        Assembly)
        requires
            closures < usize::MAX,
        ensures
            a.arity == arity,
            a.frame == arity,
            a.closures == closures + 1,
            builder ==> (a.subroutines matches Subroutines::Refs(refs) && refs@.len() == 0),
            !builder ==> a.subroutines == Subroutines::Len(subroutines),
            a.strings@.len() == 0,
            a.origins@ == seq![origin],
            a.commands@.len() == 0,
            a.sources@.len() == 0,
    {
        Assembly {
            arity,
            frame: arity,
            closures: closures + 1,
            subroutines: if builder {
                Subroutines::Refs(Vec::new())
            } else {
                Subroutines::Len(subroutines)
            },
            strings: Vec::new(),
            origins: vec![origin],
            commands: Vec::new(),
            sources: Vec::new(),
        }
    }

    /// Where the function is declared: the first origin, or the nil origin.
    pub open spec fn spec_decl_origin(&self) -> Origin {
        origin_at(self.origins@, 0)
    }

    /// The `k`th origin of command `cmd`: the origin with the `k`th index
    /// of its source (index 0 when the source has fewer), or the
    /// declaration's origin for a command without a source.
    pub open spec fn source_origin(&self, cmd: usize, k: int) -> Origin {
        if cmd < self.sources@.len() {
            let indices = self.sources@[cmd as int].origins@;
            origin_at(self.origins@, if k < indices.len() { indices[k] } else { 0 })
        } else {
            self.spec_decl_origin()
        }
    }

    /// Where the function is declared.
    pub fn decl_origin(&self) -> (r: Origin)
        ensures
            r == self.spec_decl_origin(),
    {
        get_origin(&self.origins, 0)
    }

    fn source_index(source: &Source, k: usize) -> (r: usize)
        ensures
            r == if k < source.origins@.len() { source.origins@[k as int] } else { 0 },
    {
        if k < source.origins.len() {
            source.origins[k]
        } else {
            0
        }
    }

    /// The first origin of command `cmd`.
    pub fn cmd_1_source(&self, cmd: CmdIndex) -> (r: Origin)
        ensures
            r == self.source_origin(cmd, 0),
    {
        if cmd >= self.sources.len() {
            return self.decl_origin();
        }
        let source = &self.sources[cmd];
        get_origin(&self.origins, Self::source_index(source, 0))
    }

    /// The first two origins of command `cmd`.
    pub fn cmd_2_source(&self, cmd: CmdIndex) -> (r: (Origin, Origin))
        ensures
            r == (self.source_origin(cmd, 0), self.source_origin(cmd, 1)),
    {
        if cmd >= self.sources.len() {
            let decl_origin = self.decl_origin();
            return (decl_origin, decl_origin);
        }
        let source = &self.sources[cmd];
        (
            get_origin(&self.origins, Self::source_index(source, 0)),
            get_origin(&self.origins, Self::source_index(source, 1)),
        )
    }

    /// The first three origins of command `cmd`.
    pub fn cmd_3_source(&self, cmd: CmdIndex) -> (r: (Origin, Origin, Origin))
        ensures
            r == (self.source_origin(cmd, 0), self.source_origin(cmd, 1), self.source_origin(cmd, 2)),
    {
        if cmd >= self.sources.len() {
            let decl_origin = self.decl_origin();
            return (decl_origin, decl_origin, decl_origin);
        }
        let source = &self.sources[cmd];
        (
            get_origin(&self.origins, Self::source_index(source, 0)),
            get_origin(&self.origins, Self::source_index(source, 1)),
            get_origin(&self.origins, Self::source_index(source, 2)),
        )
    }

    /// All origins of command `cmd`, in the order of its source; none for a
    /// command without a source.
    pub fn cmd_many_source(&self, cmd: CmdIndex) -> (r: Vec<Origin>)
        ensures
            cmd >= self.sources@.len() ==> r@.len() == 0,
            cmd < self.sources@.len() ==> r@ == self.sources@[cmd as int].origins@.map_values(
                |index: usize| origin_at(self.origins@, index),
            ),
    {
        if cmd >= self.sources.len() {
            return Vec::new();
        }
        let indices = &self.sources[cmd].origins;
        let mut r: Vec<Origin> = Vec::new();
        let mut i: usize = 0;
        while i < indices.len()
            invariant
                i <= indices@.len(),
                r@ == indices@.subrange(0, i as int).map_values(
                    |index: usize| origin_at(self.origins@, index),
                ),
            decreases indices.len() - i,
        {
            r.push(get_origin(&self.origins, indices[i]));
            proof {
                assert(indices@.subrange(0, i + 1) =~= indices@.subrange(0, i as int).push(indices@[i as int]));
            }
            i = i + 1;
        }
        proof {
            assert(indices@.subrange(0, indices@.len() as int) =~= indices@);
        }
        r
    }
}

} // verus!

verus! {

/// Four spaces for each of `n` levels of indentation.
pub open spec fn indentation(n: nat) -> Seq<char>
    decreases n,
{
    if n == 0 {
        Seq::empty()
    } else {
        indentation((n - 1) as nat) + "    "@
    }
}

/// The text `text` on a line of its own at `indent` levels of indentation.
pub open spec fn listing_line(indent: nat, text: Seq<char>) -> Seq<char> {
    indentation(indent) + text + "\n"@
}

/// The text of `texts` at index `k`, or nothing.
pub open spec fn text_or_empty(texts: Seq<Seq<char>>, k: int) -> Seq<char> {
    if 0 <= k < texts.len() {
        texts[k]
    } else {
        Seq::empty()
    }
}

fn push_indentation(s: &mut String, n: usize)
    ensures
        final(s)@ == old(s)@ + indentation(n as nat),
{
    let mut i: usize = 0;
    while i < n
        invariant
            i <= n,
            s@ == old(s)@ + indentation(i as nat),
        decreases n - i,
    {
        s.append("    ");
        proof {
            assert(old(s)@ + indentation((i + 1) as nat) =~= s@);
        }
        i = i + 1;
    }
}

impl Assembly {
    /// The listing lines of the first `n` commands at `indent` levels of
    /// indentation.
    pub open spec fn command_lines(
        &self,
        indent: nat,
        n: int,
        float_texts: Seq<Seq<char>>,
    ) -> Seq<char>
        decreases n,
    {
        if n <= 0 {
            Seq::empty()
        } else {
            self.command_lines(indent, n - 1, float_texts) + listing_line(
                indent,
                self.commands@[n - 1].spec_listing(
                    (n - 1) as usize,
                    self.commands@.len() as usize,
                    texts(self.strings@),
                    text_or_empty(float_texts, n - 1),
                ),
            )
        }
    }

    /// The listing lines of the first `n` strings at `indent` levels of
    /// indentation.
    pub open spec fn string_lines(&self, indent: nat, n: int) -> Seq<char>
        decreases n,
    {
        if n <= 0 {
            Seq::empty()
        } else {
            self.string_lines(indent, n - 1) + listing_line(
                indent,
                "string"@ + decimal((n - 1) as nat) + ": "@ + str_debug(self.strings@[n - 1]@),
            )
        }
    }

    /// The listings of the first `n` subroutines, rendered beforehand, at
    /// `indent` levels of indentation.
    pub open spec fn subroutine_lines(indent: nat, n: int, subroutines: Seq<Seq<char>>) -> Seq<
        char,
    >
        decreases n,
    {
        if n <= 0 {
            Seq::empty()
        } else {
            Self::subroutine_lines(indent, n - 1, subroutines) + indentation(indent) + "fn"@
                + decimal((n - 1) as nat) + ": "@ + subroutines[n - 1]
        }
    }

    /// The listing of this assembly at `indent` levels of indentation:
    /// `float_texts` are how the numbers of its `PushFloat` commands are
    /// written, by command index, and `subroutines` the listings of its
    /// subroutines at `indent + 2` levels.
    pub open spec fn spec_listing(
        &self,
        indent: nat,
        float_texts: Seq<Seq<char>>,
        subroutines: Seq<Seq<char>>,
    ) -> Seq<char> {
        let inner = indent + 1;
        "ScriptFn {\n"@ + listing_line(inner, "arity: "@ + decimal(self.arity as nat))
            + listing_line(inner, "frame: "@ + decimal(self.frame as nat)) + listing_line(
            inner,
            "closures: "@ + decimal(self.closures as nat),
        ) + self.command_section(inner, float_texts) + self.string_section(inner)
            + Self::subroutine_section(inner, subroutines) + listing_line(indent, "}"@)
    }

    /// The commands section of the listing, at `inner` levels of
    /// indentation.
    pub open spec fn command_section(&self, inner: nat, float_texts: Seq<Seq<char>>) -> Seq<char> {
        if self.commands@.len() > 0 {
            listing_line(inner, "commands:"@) + self.command_lines(
                inner + 1,
                self.commands@.len() as int,
                float_texts,
            )
        } else {
            Seq::empty()
        }
    }

    /// The strings section of the listing, at `inner` levels of indentation.
    pub open spec fn string_section(&self, inner: nat) -> Seq<char> {
        if self.strings@.len() > 0 {
            listing_line(inner, "strings:"@) + self.string_lines(inner + 1, self.strings@.len() as int)
        } else {
            Seq::empty()
        }
    }

    /// The subroutines section of the listing, at `inner` levels of
    /// indentation.
    pub open spec fn subroutine_section(inner: nat, subroutines: Seq<Seq<char>>) -> Seq<char> {
        if subroutines.len() > 0 {
            listing_line(inner, "fns:"@) + Self::subroutine_lines(
                inner + 1,
                subroutines.len() as int,
                subroutines,
            )
        } else {
            Seq::empty()
        }
    }

    fn push_command_section(&self, r: &mut String, inner: usize, float_texts: &Vec<String>)
        requires
            inner + 1 <= usize::MAX,
        ensures
            final(r)@ == old(r)@ + self.command_section(inner as nat, texts(float_texts@)),
    {
        if self.commands.len() == 0 {
            proof {
                assert(old(r)@ + self.command_section(inner as nat, texts(float_texts@)) =~= r@);
            }
            return;
        }
        push_indentation(r, inner);
        r.append("commands:");
        r.append("\n");
        let ghost start = r@;
        let len = self.commands.len();
        let mut k: usize = 0;
        while k < len
            invariant
                len == self.commands@.len(),
                k <= len,
                inner + 1 <= usize::MAX,
                r@ == start + self.command_lines((inner + 1) as nat, k as int, texts(float_texts@)),
            decreases len - k,
        {
            push_indentation(r, inner + 1);
            let empty = "";
            let float_text = if k < float_texts.len() {
                float_texts[k].as_str()
            } else {
                empty
            };
            proof {
                reveal_strlit("");
                assert(float_text@ == text_or_empty(texts(float_texts@), k as int));
            }
            let line = self.commands[k].listing(k, len, &self.strings, float_text);
            r.append(line.as_str());
            r.append("\n");
            proof {
                assert(r@ =~= start + self.command_lines((inner + 1) as nat, k + 1, texts(float_texts@)));
            }
            k = k + 1;
        }
        proof {
            assert(old(r)@ + self.command_section(inner as nat, texts(float_texts@)) =~= r@);
        }
    }

    fn push_string_section(&self, r: &mut String, inner: usize)
        requires
            inner + 1 <= usize::MAX,
        ensures
            final(r)@ == old(r)@ + self.string_section(inner as nat),
    {
        if self.strings.len() == 0 {
            proof {
                assert(old(r)@ + self.string_section(inner as nat) =~= r@);
            }
            return;
        }
        push_indentation(r, inner);
        r.append("strings:");
        r.append("\n");
        let ghost start = r@;
        let mut k: usize = 0;
        while k < self.strings.len()
            invariant
                k <= self.strings@.len(),
                inner + 1 <= usize::MAX,
                r@ == start + self.string_lines((inner + 1) as nat, k as int),
            decreases self.strings.len() - k,
        {
            push_indentation(r, inner + 1);
            r.append("string");
            push_decimal(r, k);
            r.append(": ");
            let text = debug_str(self.strings[k].as_str());
            r.append(text.as_str());
            r.append("\n");
            proof {
                assert(r@ =~= start + self.string_lines((inner + 1) as nat, k + 1));
            }
            k = k + 1;
        }
        proof {
            assert(old(r)@ + self.string_section(inner as nat) =~= r@);
        }
    }

    fn push_subroutine_section(r: &mut String, inner: usize, subroutines: &Vec<String>)
        requires
            inner + 1 <= usize::MAX,
        ensures
            final(r)@ == old(r)@ + Self::subroutine_section(inner as nat, texts(subroutines@)),
    {
        if subroutines.len() == 0 {
            proof {
                assert(old(r)@ + Self::subroutine_section(inner as nat, texts(subroutines@)) =~= r@);
            }
            return;
        }
        push_indentation(r, inner);
        r.append("fns:");
        r.append("\n");
        let ghost start = r@;
        let mut k: usize = 0;
        while k < subroutines.len()
            invariant
                k <= subroutines@.len(),
                inner + 1 <= usize::MAX,
                r@ == start + Self::subroutine_lines((inner + 1) as nat, k as int, texts(subroutines@)),
            decreases subroutines.len() - k,
        {
            push_indentation(r, inner + 1);
            r.append("fn");
            push_decimal(r, k);
            r.append(": ");
            r.append(subroutines[k].as_str());
            proof {
                assert(r@ =~= start + Self::subroutine_lines((inner + 1) as nat, k + 1, texts(subroutines@)));
            }
            k = k + 1;
        }
        proof {
            assert(old(r)@ + Self::subroutine_section(inner as nat, texts(subroutines@)) =~= r@);
        }
    }

    /// The listing of this assembly at `indent` levels of indentation:
    /// `float_texts` are how the numbers of its `PushFloat` commands are
    /// written, by command index, and `subroutines` the listings of its
    /// subroutines at `indent + 2` levels.
    #[verifier::rlimit(40)]
    pub fn listing(&self, indent: usize, float_texts: &Vec<String>, subroutines: &Vec<String>) -> (r:
        String)
        requires
            indent + 2 <= usize::MAX,
        ensures
            r@ == self.spec_listing(indent as nat, texts(float_texts@), texts(subroutines@)),
    {
        let inner = indent + 1;
        let mut r = String::new();
        r.append("ScriptFn {\n");
        push_indentation(&mut r, inner);
        r.append("arity: ");
        push_decimal(&mut r, self.arity);
        r.append("\n");
        push_indentation(&mut r, inner);
        r.append("frame: ");
        push_decimal(&mut r, self.frame);
        r.append("\n");
        push_indentation(&mut r, inner);
        r.append("closures: ");
        push_decimal(&mut r, self.closures);
        r.append("\n");
        let ghost header = r@;
        self.push_command_section(&mut r, inner, float_texts);
        let ghost with_commands = r@;
        self.push_string_section(&mut r, inner);
        let ghost with_strings = r@;
        Self::push_subroutine_section(&mut r, inner, subroutines);
        let ghost with_subroutines = r@;
        push_indentation(&mut r, indent);
        r.append("}");
        r.append("\n");
        proof {
            let body = "ScriptFn {\n"@ + listing_line(inner as nat, "arity: "@ + decimal(self.arity as nat))
                + listing_line(inner as nat, "frame: "@ + decimal(self.frame as nat)) + listing_line(
                inner as nat,
                "closures: "@ + decimal(self.closures as nat),
            );
            assert(header =~= body);
            assert(r@ =~= body + self.command_section(inner as nat, texts(float_texts@))
                + self.string_section(inner as nat) + Self::subroutine_section(
                inner as nat,
                texts(subroutines@),
            ) + listing_line(indent as nat, "}"@));
        }
        r
    }
}

} // verus!
