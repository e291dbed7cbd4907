//! The command line on which the client starts the server.
use crate::text;
use crate::text::{parse_i32, parse_u32, push_decimal, starts_with};
use vstd::prelude::*;
use vstd::string::*;

verus! {

/// The texts of the arguments.
pub open spec fn texts(arguments: Seq<String>) -> Seq<Seq<char>> {
    arguments.map_values(|argument: String| argument@)
}

/// The value of a switch, looked for from an argument on. It stands behind an equals sign, or in
/// the next argument unless that is a switch itself. The first argument that names the switch
/// decides.
pub open spec fn value_from(arguments: Seq<Seq<char>>, name: Seq<char>, from: int) -> Option<
    Seq<char>,
>
    decreases arguments.len() - from,
{
    if from < 0 || from >= arguments.len() {
        None
    } else if text::begins_with(arguments[from], name.push('=')) {
        Some(arguments[from].skip(name.len() as int + 1))
    } else if arguments[from] == name {
        if from + 1 < arguments.len() && !text::begins_with(arguments[from + 1], seq!['-', '-']) {
            Some(arguments[from + 1])
        } else {
            None
        }
    } else {
        value_from(arguments, name, from + 1)
    }
}

/// The value of a switch.
pub open spec fn value_of(arguments: Seq<Seq<char>>, name: Seq<char>) -> Option<Seq<char>> {
    value_from(arguments, name, 0)
}

/// Whether a switch is on: its value is a number other than zero. Where it has no number it is as
/// usual.
pub open spec fn is_on(arguments: Seq<Seq<char>>, name: Seq<char>, usual: bool) -> bool {
    match value_of(arguments, name) {
        None => usual,
        Some(value) => match text::parsed_i32(value) {
            None => usual,
            Some(number) => number != 0,
        },
    }
}

/// The value of a switch, if it is given.
pub fn argument_value(arguments: &[String], name: &str) -> (value: Option<String>)
    ensures
        match (value, value_of(texts(arguments@), name@)) {
            (Some(value), Some(expected)) => value@ == expected,
            (None, None) => true,
            _ => false,
        },
{
    proof {
        reveal_strlit("=");
        reveal_strlit("--");
    }
    let mut prefix: String = name.to_owned();
    prefix.append("=");
    assert(prefix@ =~= name@.push('='));
    assert("--"@ =~= seq!['-', '-']);
    let wanted: String = name.to_owned();
    let start: usize = prefix.as_str().unicode_len();
    let ghost all = texts(arguments@);
    let mut index: usize = 0;
    while index < arguments.len()
        invariant
            index <= arguments@.len(),
            all == texts(arguments@),
            prefix@ == name@.push('='),
            start == name@.len() + 1,
            wanted@ == name@,
            "--"@ == seq!['-', '-'],
            value_of(all, name@) == value_from(all, name@, index as int),
        decreases arguments.len() - index,
    {
        let argument: &str = arguments[index].as_str();
        assert(all[index as int] == argument@);
        if starts_with(argument, prefix.as_str()) {
            let end: usize = argument.unicode_len();
            let value: &str = argument.substring_char(start, end);
            assert(value@ =~= argument@.skip(name@.len() as int + 1));
            return Some(value.to_owned());
        }
        if arguments[index] == wanted {
            if index + 1 < arguments.len() {
                assert(all[index + 1] == arguments@[index + 1]@);
                if !starts_with(arguments[index + 1].as_str(), "--") {
                    return Some(arguments[index + 1].as_str().to_owned());
                }
            }
            return None;
        }
        index += 1;
    }
    None
}

/// Whether a switch is on.
pub fn switch_is_on(arguments: &[String], name: &str, usual: bool) -> (on: bool)
    ensures
        on == is_on(texts(arguments@), name@, usual),
{
    match argument_value(arguments, name) {
        None => usual,
        Some(value) => match parse_i32(value.as_str()) {
            None => usual,
            Some(number) => number != 0,
        },
    }
}

/// What the command line says.
pub struct ServerOptions {
    pub logging: bool,
    /// The channel on which the client waits.
    pub ipc_server: Option<String>,
    pub client_pid: Option<u32>,
    pub use_gpu: bool,
}

/// Whether a command line says the given options.
pub open spec fn says(arguments: Seq<Seq<char>>, options: ServerOptions) -> bool {
    &&& options.logging == is_on(arguments, "--logging"@, false)
    &&& options.use_gpu == is_on(arguments, "--use-gpu"@, true)
    &&& match (options.ipc_server, value_of(arguments, "--ipc-server"@)) {
        (Some(name), Some(expected)) => name@ == expected,
        (None, None) => true,
        _ => false,
    }
    &&& options.client_pid == match value_of(arguments, "--client-pid"@) {
        None => None,
        Some(value) => text::parsed_u32(value),
    }
}

/// Reads the command line. Without further word nothing is logged and the graphics processor is
/// used.
pub fn server_options(arguments: &[String]) -> (options: ServerOptions)
    ensures
        says(texts(arguments@), options),
{
    let client_pid: Option<u32> = match argument_value(arguments, "--client-pid") {
        None => None,
        Some(value) => parse_u32(value.as_str()),
    };
    ServerOptions {
        logging: switch_is_on(arguments, "--logging", false),
        ipc_server: argument_value(arguments, "--ipc-server"),
        client_pid,
        use_gpu: switch_is_on(arguments, "--use-gpu", true),
    }
}

/// "1" or "0".
pub open spec fn flag_text(on: bool) -> Seq<char> {
    if on {
        seq!['1']
    } else {
        seq!['0']
    }
}

/// The arguments that the client gives the server.
pub open spec fn client_arguments(
    ipc_server: Seq<char>,
    client_pid: u32,
    use_gpu: bool,
    logging: bool,
) -> Seq<Seq<char>> {
    seq![
        "--ipc-server="@ + ipc_server,
        "--client-pid="@ + text::decimal(client_pid as nat),
        "--use-gpu="@ + flag_text(use_gpu),
        "--logging="@ + flag_text(logging),
    ]
}

/// A switch with its value.
fn switch(name: &str, value: &str) -> (argument: String)
    ensures
        argument@ == name@ + value@,
{
    let mut argument: String = name.to_owned();
    argument.append(value);
    argument
}

/// A switch that is on or off.
fn flag(name: &str, on: bool) -> (argument: String)
    ensures
        argument@ == name@ + flag_text(on),
{
    proof {
        reveal_strlit("1");
        reveal_strlit("0");
    }
    assert("1"@ =~= seq!['1']);
    assert("0"@ =~= seq!['0']);
    if on {
        switch(name, "1")
    } else {
        switch(name, "0")
    }
}

/// The arguments to start the server with.
pub fn server_arguments(ipc_server: &str, client_pid: u32, use_gpu: bool, logging: bool) -> (
arguments: Vec<String>)
    ensures
        texts(arguments@) == client_arguments(ipc_server@, client_pid, use_gpu, logging),
{
    let mut pid: String = String::new();
    push_decimal(&mut pid, client_pid as u64);
    let mut arguments: Vec<String> = Vec::new();
    arguments.push(switch("--ipc-server=", ipc_server));
    arguments.push(switch("--client-pid=", pid.as_str()));
    arguments.push(flag("--use-gpu=", use_gpu));
    arguments.push(flag("--logging=", logging));
    assert(pid@ =~= text::decimal(client_pid as nat));
    assert(texts(arguments@) =~= client_arguments(ipc_server@, client_pid, use_gpu, logging));
    arguments
}

/// The argument behind the first one that equals `name`.
pub open spec fn argument_after(arguments: Seq<Seq<char>>, name: Seq<char>, from: int) -> Option<
    Seq<char>,
>
    decreases arguments.len() - from,
{
    if from < 0 || from >= arguments.len() {
        None
    } else if arguments[from] == name {
        if from + 1 < arguments.len() {
            Some(arguments[from + 1])
        } else {
            None
        }
    } else {
        argument_after(arguments, name, from + 1)
    }
}

/// The argument behind the first one that equals `name`, whatever it looks like.
pub fn following_argument(arguments: &[String], name: &str) -> (value: Option<String>)
    ensures
        match (value, argument_after(texts(arguments@), name@, 0)) {
            (Some(value), Some(expected)) => value@ == expected,
            (None, None) => true,
            _ => false,
        },
{
    let wanted: String = name.to_owned();
    let ghost all = texts(arguments@);
    let mut index: usize = 0;
    while index < arguments.len()
        invariant
            index <= arguments@.len(),
            all == texts(arguments@),
            wanted@ == name@,
            argument_after(all, name@, 0) == argument_after(all, name@, index as int),
        decreases arguments.len() - index,
    {
        assert(all[index as int] == arguments@[index as int]@);
        if arguments[index] == wanted {
            if index + 1 < arguments.len() {
                assert(all[index + 1] == arguments@[index + 1]@);
                return Some(arguments[index + 1].as_str().to_owned());
            }
            return None;
        }
        index += 1;
    }
    None
}

/// The first argument that names the kind of a helper process, from the given one on.
pub open spec fn kind_from(arguments: Seq<Seq<char>>, from: int) -> Option<Seq<char>>
    decreases arguments.len() - from,
{
    if from < 0 || from >= arguments.len() {
        None
    } else if text::begins_with(arguments[from], "--type="@) {
        Some(arguments[from])
    } else {
        kind_from(arguments, from + 1)
    }
}

/// The argument that names the kind of a helper process, or that it is unknown.
pub open spec fn kind_of(arguments: Seq<Seq<char>>) -> Seq<char> {
    match kind_from(arguments, 0) {
        Some(argument) => argument,
        None => "unknown"@,
    }
}

/// The argument that names the kind of a helper process, or that it is unknown.
pub fn process_type(arguments: &[String]) -> (kind: String)
    ensures
        kind@ == kind_of(texts(arguments@)),
{
    let ghost all = texts(arguments@);
    let mut index: usize = 0;
    while index < arguments.len()
        invariant
            index <= arguments@.len(),
            all == texts(arguments@),
            kind_from(all, 0) == kind_from(all, index as int),
        decreases arguments.len() - index,
    {
        assert(all[index as int] == arguments@[index as int]@);
        if starts_with(arguments[index].as_str(), "--type=") {
            return arguments[index].as_str().to_owned();
        }
        index += 1;
    }
    "unknown".to_owned()
}

/// The file name of the socket that a client offers.
pub open spec fn socket_name(client_pid: u32) -> Seq<char> {
    "cef-unity-"@ + text::decimal(client_pid as nat) + ".sock"@
}

/// The file name of the socket that a client offers.
pub fn socket_file_name(client_pid: u32) -> (name: String)
    ensures
        name@ == socket_name(client_pid),
{
    let mut name: String = String::new();
    name.append("cef-unity-");
    push_decimal(&mut name, client_pid as u64);
    name.append(".sock");
    assert(name@ =~= "cef-unity-"@ + text::decimal(client_pid as nat) + ".sock"@);
    name
}

/// A switch that is looked for is found behind its name, and one with another name is passed over.
proof fn lemma_switch(arguments: Seq<Seq<char>>, name: Seq<char>, value: Seq<char>, at: int)
    requires
        0 <= at < arguments.len(),
        arguments[at] == name.push('=') + value,
        forall|i: int|
            0 <= i < at ==> !text::begins_with(#[trigger] arguments[i], name.push('='))
                && arguments[i] != name,
    ensures
        value_of(arguments, name) == Some(value),
{
    let prefix = name.push('=');
    assert(arguments[at].take(prefix.len() as int) =~= prefix);
    assert(arguments[at].skip(name.len() as int + 1) =~= value);
    lemma_passed_over(arguments, name, at);
}

/// Arguments that do not name a switch do not matter for it.
proof fn lemma_passed_over(arguments: Seq<Seq<char>>, name: Seq<char>, at: int)
    requires
        0 <= at <= arguments.len(),
        forall|i: int|
            0 <= i < at ==> !text::begins_with(#[trigger] arguments[i], name.push('='))
                && arguments[i] != name,
    ensures
        value_of(arguments, name) == value_from(arguments, name, at),
    decreases at,
{
    if at > 0 {
        lemma_passed_over(arguments, name, at - 1);
        assert(!text::begins_with(arguments[at - 1], name.push('=')));
    }
}

/// Two texts that differ in a character that both have do not begin alike.
proof fn lemma_differs(argument: Seq<char>, name: Seq<char>, at: int)
    requires
        0 <= at < argument.len(),
        at < name.len(),
        argument[at] != name[at],
    ensures
        !text::begins_with(argument, name.push('=')),
        argument != name,
{
    let prefix = name.push('=');
    if text::begins_with(argument, prefix) {
        assert(argument.take(prefix.len() as int)[at] == prefix[at]);
    }
}

/// Whether an argument names a switch, with or without a value.
pub open spec fn names(argument: Seq<char>, name: Seq<char>) -> bool {
    text::begins_with(argument, name.push('=')) || argument == name
}

/// What the client tells the server on the command line, the server reads there, whatever program
/// name comes first, as long as that names none of the switches.
pub proof fn law_server_reads_what_the_client_says(
    program: Seq<char>,
    ipc_server: Seq<char>,
    client_pid: u32,
    use_gpu: bool,
    logging: bool,
)
    requires
        !names(program, "--ipc-server"@),
        !names(program, "--client-pid"@),
        !names(program, "--use-gpu"@),
        !names(program, "--logging"@),
    ensures
        ({
            let arguments = seq![program] + client_arguments(
                ipc_server,
                client_pid,
                use_gpu,
                logging,
            );
            &&& value_of(arguments, "--ipc-server"@) == Some(ipc_server)
            &&& value_of(arguments, "--client-pid"@) matches Some(value) && text::parsed_u32(value)
                == Some(client_pid)
            &&& is_on(arguments, "--use-gpu"@, true) == use_gpu
            &&& is_on(arguments, "--logging"@, false) == logging
        }),
{
    reveal_strlit("--ipc-server");
    reveal_strlit("--client-pid");
    reveal_strlit("--use-gpu");
    reveal_strlit("--logging");
    reveal_strlit("--ipc-server=");
    reveal_strlit("--client-pid=");
    reveal_strlit("--use-gpu=");
    reveal_strlit("--logging=");
    let arguments = seq![program] + client_arguments(ipc_server, client_pid, use_gpu, logging);
    assert("--ipc-server="@ =~= "--ipc-server"@.push('='));
    assert("--client-pid="@ =~= "--client-pid"@.push('='));
    assert("--use-gpu="@ =~= "--use-gpu"@.push('='));
    assert("--logging="@ =~= "--logging"@.push('='));
    assert(arguments[0] == program);
    assert(arguments[1] == "--ipc-server"@.push('=') + ipc_server);
    assert(arguments[2] == "--client-pid"@.push('=') + text::decimal(client_pid as nat));
    assert(arguments[3] == "--use-gpu"@.push('=') + flag_text(use_gpu));
    assert(arguments[4] == "--logging"@.push('=') + flag_text(logging));
    assert(arguments[1][2] == 'i' && arguments[2][2] == 'c' && arguments[3][2] == 'u');
    lemma_differs(arguments[1], "--client-pid"@, 2);
    lemma_differs(arguments[1], "--use-gpu"@, 2);
    lemma_differs(arguments[1], "--logging"@, 2);
    lemma_differs(arguments[2], "--use-gpu"@, 2);
    lemma_differs(arguments[2], "--logging"@, 2);
    lemma_differs(arguments[3], "--logging"@, 2);
    lemma_switch(arguments, "--ipc-server"@, ipc_server, 1);
    lemma_switch(arguments, "--client-pid"@, text::decimal(client_pid as nat), 2);
    lemma_switch(arguments, "--use-gpu"@, flag_text(use_gpu), 3);
    lemma_switch(arguments, "--logging"@, flag_text(logging), 4);
    text::lemma_decimal_round_trip(client_pid);
    text::lemma_decimal_round_trip(1);
    text::lemma_decimal_round_trip(0);
    assert(flag_text(true) =~= text::decimal(1));
    assert(flag_text(false) =~= text::decimal(0));
}

/// The value of a switch is what stands behind the equals sign in the first argument that names it.
pub proof fn law_value_stands_behind_the_equals_sign(
    before: Seq<Seq<char>>,
    name: Seq<char>,
    value: Seq<char>,
    after: Seq<Seq<char>>,
)
    requires
        forall|i: int| 0 <= i < before.len() ==> !names(#[trigger] before[i], name),
    ensures
        value_of(before.push(name.push('=') + value) + after, name) == Some(value),
{
    let arguments = before.push(name.push('=') + value) + after;
    let at = before.len() as int;
    assert(arguments[at] == name.push('=') + value);
    assert forall|i: int| 0 <= i < at implies !text::begins_with(
        #[trigger] arguments[i],
        name.push('='),
    ) && arguments[i] != name by {
        assert(arguments[i] == before[i]);
        assert(!names(before[i], name));
    }
    lemma_switch(arguments, name, value, at);
}

/// The value of a switch without an equals sign is the next argument, unless that is a switch itself or there
/// is none: then the switch has no value, whatever comes later.
pub proof fn law_value_is_the_next_argument(
    before: Seq<Seq<char>>,
    name: Seq<char>,
    after: Seq<Seq<char>>,
)
    requires
        forall|i: int| 0 <= i < before.len() ==> !names(#[trigger] before[i], name),
    ensures
        after.len() > 0 && !text::begins_with(after[0], seq!['-', '-']) ==> value_of(
            before.push(name) + after,
            name,
        ) == Some(after[0]),
        after.len() > 0 && text::begins_with(after[0], seq!['-', '-']) ==> value_of(
            before.push(name) + after,
            name,
        ) is None,
        value_of(before.push(name), name) is None,
        value_of(before, name) is None,
{
    let arguments = before.push(name) + after;
    let at = before.len() as int;
    assert forall|i: int| 0 <= i < at implies !text::begins_with(
        #[trigger] arguments[i],
        name.push('='),
    ) && arguments[i] != name by {
        assert(arguments[i] == before[i]);
        assert(!names(before[i], name));
    }
    assert forall|i: int| 0 <= i < at implies !text::begins_with(
        #[trigger] before[i],
        name.push('='),
    ) && before[i] != name by {
        assert(!names(before[i], name));
    }
    let alone = before.push(name);
    assert forall|i: int| 0 <= i < at implies !text::begins_with(
        #[trigger] alone[i],
        name.push('='),
    ) && alone[i] != name by {
        assert(alone[i] == before[i]);
        assert(!names(before[i], name));
    }
    lemma_passed_over(arguments, name, at);
    lemma_passed_over(before, name, at);
    lemma_passed_over(alone, name, at);
    assert(arguments[at] == name);
    assert(after.len() > 0 ==> arguments[at + 1] == after[0]);
}

/// A switch is on if its value is a number other than zero and off if it is zero; without a number it is as
/// usual.
pub proof fn law_switch_is_on_unless_it_is_zero(
    arguments: Seq<Seq<char>>,
    name: Seq<char>,
    usual: bool,
    number: i32,
)
    ensures
        (value_of(arguments, name) matches Some(value) && text::parsed_i32(value) == Some(number))
            ==> is_on(arguments, name, usual) == (number != 0),
        value_of(arguments, name) is None ==> is_on(arguments, name, usual) == usual,
        (value_of(arguments, name) matches Some(value) && text::parsed_i32(value) is None) ==> is_on(
            arguments,
            name,
            usual,
        ) == usual,
{
}

/// Where the command line names none of the switches, nothing is logged, the graphics processor is used, and
/// there is neither a channel nor a client.
pub proof fn law_server_has_its_usual_options(arguments: Seq<Seq<char>>, options: ServerOptions)
    requires
        says(arguments, options),
        forall|i: int|
            0 <= i < arguments.len() ==> !names(#[trigger] arguments[i], "--logging"@) && !names(
                arguments[i],
                "--use-gpu"@,
            ) && !names(arguments[i], "--ipc-server"@) && !names(arguments[i], "--client-pid"@),
    ensures
        !options.logging,
        options.use_gpu,
        options.ipc_server is None,
        options.client_pid is None,
{
    law_value_is_the_next_argument(arguments, "--logging"@, Seq::empty());
    law_value_is_the_next_argument(arguments, "--use-gpu"@, Seq::empty());
    law_value_is_the_next_argument(arguments, "--ipc-server"@, Seq::empty());
    law_value_is_the_next_argument(arguments, "--client-pid"@, Seq::empty());
}

/// The options that the server reads are those that the client says, whatever program name comes first, as
/// long as that names none of the switches.
pub proof fn law_server_has_the_options_of_its_client(
    program: Seq<char>,
    ipc_server: Seq<char>,
    client_pid: u32,
    use_gpu: bool,
    logging: bool,
    options: ServerOptions,
)
    requires
        !names(program, "--ipc-server"@),
        !names(program, "--client-pid"@),
        !names(program, "--use-gpu"@),
        !names(program, "--logging"@),
        says(
            seq![program] + client_arguments(ipc_server, client_pid, use_gpu, logging),
            options,
        ),
    ensures
        options.logging == logging,
        options.use_gpu == use_gpu,
        options.ipc_server matches Some(name) && name@ == ipc_server,
        options.client_pid == Some(client_pid),
{
    law_server_reads_what_the_client_says(program, ipc_server, client_pid, use_gpu, logging);
}

/// The argument behind the first one with the given name is taken whatever it looks like; where that is the
/// last one, or there is none, nothing is.
pub proof fn law_following_argument_is_taken(
    before: Seq<Seq<char>>,
    name: Seq<char>,
    after: Seq<Seq<char>>,
)
    requires
        forall|i: int| 0 <= i < before.len() ==> #[trigger] before[i] != name,
    ensures
        after.len() > 0 ==> argument_after(before.push(name) + after, name, 0) == Some(after[0]),
        argument_after(before.push(name), name, 0) is None,
        argument_after(before, name, 0) is None,
{
    lemma_argument_passed_over(before.push(name) + after, before, name, before.len() as int);
    lemma_argument_passed_over(before.push(name), before, name, before.len() as int);
    lemma_argument_passed_over(before, before, name, before.len() as int);
}

/// Arguments without the name that is looked for do not matter.
proof fn lemma_argument_passed_over(
    arguments: Seq<Seq<char>>,
    before: Seq<Seq<char>>,
    name: Seq<char>,
    at: int,
)
    requires
        0 <= at <= before.len() <= arguments.len(),
        arguments.take(before.len() as int) =~= before,
        forall|i: int| 0 <= i < before.len() ==> #[trigger] before[i] != name,
    ensures
        argument_after(arguments, name, 0) == argument_after(arguments, name, at),
    decreases at,
{
    if at > 0 {
        lemma_argument_passed_over(arguments, before, name, at - 1);
        assert(arguments[at - 1] == before[at - 1]);
    }
}

/// The kind of a helper process is the whole of the first argument that names it, and unknown where none
/// does.
pub proof fn law_first_kind_counts(before: Seq<Seq<char>>, kind: Seq<char>, after: Seq<Seq<char>>)
    requires
        forall|i: int|
            0 <= i < before.len() ==> !text::begins_with(#[trigger] before[i], "--type="@),
        text::begins_with(kind, "--type="@),
    ensures
        kind_of(before.push(kind) + after) == kind,
        kind_of(before) == "unknown"@,
{
    lemma_kind_passed_over(before.push(kind) + after, before, before.len() as int);
    lemma_kind_passed_over(before, before, before.len() as int);
}

/// Arguments that name no kind do not matter.
proof fn lemma_kind_passed_over(arguments: Seq<Seq<char>>, before: Seq<Seq<char>>, at: int)
    requires
        0 <= at <= before.len() <= arguments.len(),
        arguments.take(before.len() as int) =~= before,
        forall|i: int|
            0 <= i < before.len() ==> !text::begins_with(#[trigger] before[i], "--type="@),
    ensures
        kind_from(arguments, 0) == kind_from(arguments, at),
    decreases at,
{
    if at > 0 {
        lemma_kind_passed_over(arguments, before, at - 1);
        assert(arguments[at - 1] == before[at - 1]);
    }
}

/// Different clients offer different sockets, and the name holds the number of the client in decimal.
pub proof fn law_socket_is_named_after_its_client(client_pid: u32, other_pid: u32)
    ensures
        ({
            let name = socket_name(client_pid);
            &&& name.len() > 15
            &&& name.take(10) == "cef-unity-"@
            &&& name.skip(name.len() - 5) == ".sock"@
            &&& text::number(name.subrange(10, name.len() - 5)) == client_pid
        }),
        client_pid != other_pid ==> socket_name(client_pid) != socket_name(other_pid),
{
    reveal_strlit("cef-unity-");
    reveal_strlit(".sock");
    text::lemma_decimal_is_number(client_pid as nat);
    text::lemma_decimal_is_number(other_pid as nat);
    let (name, other) = (socket_name(client_pid), socket_name(other_pid));
    assert(name.take(10) =~= "cef-unity-"@);
    assert(name.skip(name.len() - 5) =~= ".sock"@);
    assert(name.subrange(10, name.len() - 5) =~= text::decimal(client_pid as nat));
    assert(other.subrange(10, other.len() - 5) =~= text::decimal(other_pid as nat));
}

} // verus!
