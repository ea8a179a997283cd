use vstd::prelude::*;

verus! {

/// Names of the function running at some level of the call stack.
#[derive(Clone, Debug)]
pub struct DebugNames {
    /// A reasonable name of the function (`None` when none can be found).
    pub name: Option<String>,
    /// What kind of name `name` is; never known for this VM.
    pub name_what: Option<String>,
}

/// Where the function running at some level of the call stack was defined.
#[derive(Clone, Debug)]
pub struct DebugSource {
    /// Source of the chunk that created the function.
    pub source: Option<String>,
    /// A printable form of `source`, for error messages.
    pub short_src: Option<String>,
    /// The line where the function's definition starts.
    pub line_defined: Option<usize>,
    /// The line where the function's definition ends (never set by this VM).
    pub last_line_defined: Option<usize>,
    /// "Lua" for a script function, "C" for a native one, "main" for the main part of a chunk.
    pub what: String,
}

/// Shape of the function running at some level of the call stack.
#[derive(Copy, Clone, Debug)]
pub struct DebugStack {
    /// Number of upvalues.
    pub num_ups: u8,
    /// Number of parameters.
    pub num_params: u8,
    /// Whether the function takes variable arguments.
    pub is_vararg: bool,
}

/// A line number as the VM reports it: negative means unknown.
pub fn line_number(n: i32) -> (r: Option<usize>)
    ensures
        n < 0 ==> r is None,
        n >= 0 ==> r == Some(n as usize),
{
    if n < 0 {
        None
    } else {
        Some(n as usize)
    }
}

impl DebugNames {
    /// The names read from the VM's debug record; the kind of name is never known.
    pub fn from_record(name: Option<String>) -> (r: Self)
        ensures
            r.name == name,
            r.name_what is None,
    {
        DebugNames { name, name_what: None }
    }
}

impl DebugSource {
    /// The source record read from the VM's debug record: a missing kind
    /// reads as "main", a negative line as unknown.
    pub fn from_record(
        source: Option<String>,
        short_src: Option<String>,
        linedefined: i32,
        what: Option<String>,
    ) -> (r: Self)
        ensures
            r.source == source,
            r.short_src == short_src,
            r.line_defined == (if linedefined < 0 { None } else { Some(linedefined as usize) }),
            r.last_line_defined is None,
            what matches Some(w) ==> r.what == w,
            what is None ==> r.what@ == "main"@,
    {
        let what = match what {
            Some(w) => w,
            None => "main".to_owned(),
        };
        proof {
            reveal_strlit("main");
        }
        DebugSource { source, short_src, line_defined: line_number(linedefined), last_line_defined: None, what }
    }
}

impl DebugStack {
    /// The stack record read from the VM's debug record.
    pub fn from_record(nupvals: u8, nparams: u8, isvararg: u8) -> (r: Self)
        ensures
            r.num_ups == nupvals,
            r.num_params == nparams,
            r.is_vararg == (isvararg != 0),
    {
        DebugStack { num_ups: nupvals, num_params: nparams, is_vararg: isvararg != 0 }
    }
}

} // verus!
