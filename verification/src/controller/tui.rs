//! The rules of the controller's front-end: which access a command stands
//! for, which device it means, which tokens it asks for, and how the reply of
//! a device is read.
use vstd::prelude::*;
use vstd::string::StrSliceExecFns;
use vstd::string::StringExecFns;
use crate::arbiter::acl::Access;
use crate::arbiter::request::{ApiDevice, ControlTokenRequest, ControlTokenRequestView};
use crate::cid::ComponentId;
use crate::coap::Method;
use crate::base64url::{base64url_decode, base64url_encode, decode, encode};
use crate::json::{from_text, is_object, json_parse, json_print, parse, print, with_member, Json};
use crate::text::is_text;
use crate::token::{compact_parts, split_compact};

verus! {

/// The kind of request that a command makes of a device.
#[derive(Clone, Copy, Debug, PartialEq, Eq, Structural)]
pub enum RequestType {
    Get,
    Put,
}

impl RequestType {
    /// The kind of request that a command letter stands for: `g` gets and
    /// `s` sets.
    pub open spec fn of_letter(letter: Seq<char>) -> Option<RequestType> {
        if letter == "g"@ {
            Some(RequestType::Get)
        } else if letter == "s"@ {
            Some(RequestType::Put)
        } else {
            None
        }
    }

    /// Reads the kind of request from a command letter.
    pub fn from_letter(letter: &str) -> (r: Option<RequestType>)
        ensures
            r == Self::of_letter(letter@),
    {
        let letter = letter.to_owned();
        if is_text(&letter, "g") {
            Some(RequestType::Get)
        } else if is_text(&letter, "s") {
            Some(RequestType::Put)
        } else {
            None
        }
    }

    /// The method of the request.
    pub open spec fn method_of(&self) -> Method {
        match *self {
            RequestType::Get => Method::Get,
            RequestType::Put => Method::Put,
        }
    }

    /// Gives [`RequestType::method_of`].
    pub fn method(&self) -> (method: Method)
        ensures
            method == self.method_of(),
    {
        match self {
            RequestType::Get => Method::Get,
            RequestType::Put => Method::Put,
        }
    }

    /// The direction of the access that the request makes: the one that a
    /// device takes its method for.
    pub fn access(&self) -> (access: Access)
        ensures
            crate::device::access_of(self.method_of()) == Some(access),
    {
        match self {
            RequestType::Get => Access::Read,
            RequestType::Put => Access::Write,
        }
    }

    /// The name of the method: `GET` or `PUT`.
    pub fn name(&self) -> (name: String)
        ensures
            name@ == match *self {
                RequestType::Get => "GET"@,
                RequestType::Put => "PUT"@,
            },
    {
        match self {
            RequestType::Get => String::from_str("GET"),
            RequestType::Put => String::from_str("PUT"),
        }
    }
}

/// The device that a command means by `index`: the one at that place of the
/// list that was discovered last, if there is one.
pub fn select_device(devices: &Vec<ApiDevice>, index: usize) -> (device: Option<&ApiDevice>)
    ensures
        match device {
            Some(d) => index < devices@.len() && *d == devices@[index as int],
            None => index >= devices@.len(),
        },
{
    if index < devices.len() {
        Some(&devices[index])
    } else {
        None
    }
}

/// The request for the one token that an access needs: for the one device,
/// and for the one parameter in the direction of the access.
pub open spec fn token_request_for(
    controller: ComponentId,
    device: ComponentId,
    access: Access,
    parameter: Seq<char>,
) -> ControlTokenRequestView {
    ControlTokenRequestView {
        cid: controller,
        devices: seq![device],
        params_read: match access {
            Access::Read => seq![parameter],
            Access::Write => Seq::<Seq<char>>::empty(),
        },
        params_write: match access {
            Access::Read => Seq::<Seq<char>>::empty(),
            Access::Write => seq![parameter],
        },
    }
}

/// Builds [`token_request_for`].
pub fn token_request(controller: ComponentId, device: ComponentId, access: Access, parameter: &str) -> (request:
    ControlTokenRequest)
    ensures
        request@ == token_request_for(controller, device, access, parameter@),
{
    let mut devices: Vec<ComponentId> = Vec::new();
    devices.push(device);
    let mut params_read: Vec<String> = Vec::new();
    let mut params_write: Vec<String> = Vec::new();
    match access {
        Access::Read => {
            params_read.push(parameter.to_owned());
        },
        Access::Write => {
            params_write.push(parameter.to_owned());
        },
    }
    let request = ControlTokenRequest { cid: controller, devices, params_read, params_write };
    proof {
        let expected = token_request_for(controller, device, access, parameter@);
        assert(request@.devices =~= expected.devices);
        assert(request@.params_read =~= expected.params_read);
        assert(request@.params_write =~= expected.params_write);
    }
    request
}

/// The value of a decimal digit.
pub open spec fn digit_value(c: char) -> Option<nat> {
    if c == '0' {
        Some(0)
    } else if c == '1' {
        Some(1)
    } else if c == '2' {
        Some(2)
    } else if c == '3' {
        Some(3)
    } else if c == '4' {
        Some(4)
    } else if c == '5' {
        Some(5)
    } else if c == '6' {
        Some(6)
    } else if c == '7' {
        Some(7)
    } else if c == '8' {
        Some(8)
    } else if c == '9' {
        Some(9)
    } else {
        None
    }
}

/// The number that a non-empty sequence of decimal digits denotes.
pub open spec fn decimal(digits: Seq<char>) -> Option<nat>
    decreases digits.len(),
{
    if digits.len() == 0 {
        None
    } else if digits.len() == 1 {
        digit_value(digits[0])
    } else {
        match (decimal(digits.drop_last()), digit_value(digits.last())) {
            (Some(tens), Some(unit)) => Some(10 * tens + unit),
            _ => None,
        }
    }
}

/// The index that a text denotes: the number that its decimal digits
/// denote, if that fits the range of indices.
pub open spec fn index_of_text(text: Seq<char>) -> Option<usize> {
    match decimal(text) {
        Some(n) => if n <= usize::MAX {
            Some(n as usize)
        } else {
            None
        },
        None => None,
    }
}

/// Every beginning of a number is a number, and no larger one.
proof fn decimal_of_beginning(digits: Seq<char>, i: int)
    requires
        decimal(digits) is Some,
        0 < i <= digits.len(),
    ensures
        decimal(digits.subrange(0, i)) is Some,
        decimal(digits.subrange(0, i))->Some_0 <= decimal(digits)->Some_0,
        digit_value(digits[i - 1]) is Some,
    decreases digits.len(),
{
    if i == digits.len() {
        assert(digits.subrange(0, i) =~= digits);
        if digits.len() > 1 {
            assert(digits.last() == digits[i - 1]);
        }
    } else {
        assert(digits.drop_last().subrange(0, i) =~= digits.subrange(0, i));
        assert(digits.drop_last()[i - 1] == digits[i - 1]);
        decimal_of_beginning(digits.drop_last(), i);
    }
}

/// Reads a decimal digit.
pub fn digit(c: char) -> (d: Option<usize>)
    ensures
        match d {
            Some(d) => digit_value(c) == Some(d as nat),
            None => digit_value(c).is_none(),
        },
{
    if c == '0' {
        Some(0)
    } else if c == '1' {
        Some(1)
    } else if c == '2' {
        Some(2)
    } else if c == '3' {
        Some(3)
    } else if c == '4' {
        Some(4)
    } else if c == '5' {
        Some(5)
    } else if c == '6' {
        Some(6)
    } else if c == '7' {
        Some(7)
    } else if c == '8' {
        Some(8)
    } else if c == '9' {
        Some(9)
    } else {
        None
    }
}

/// Reads an index from its decimal digits.
pub fn parse_index(text: &str) -> (r: Option<usize>)
    ensures
        r == index_of_text(text@),
{
    let n = text.unicode_len();
    if n == 0 {
        return None;
    }
    let mut acc: usize = 0;
    let mut i: usize = 0;
    while i < n
        invariant
            i <= n,
            n == text@.len(),
            i == 0 ==> acc == 0,
            i > 0 ==> decimal(text@.subrange(0, i as int)) == Some(acc as nat),
        decreases n - i,
    {
        let c = text.get_char(i);
        let ghost longer = text@.subrange(0, i as int + 1);
        proof {
            assert(longer.last() == c);
            assert(longer.drop_last() =~= text@.subrange(0, i as int));
            assert(longer.len() == 1 ==> longer[0] == c);
        }
        let d = match digit(c) {
            Some(d) => d,
            None => {
                proof {
                    if decimal(text@) is Some {
                        decimal_of_beginning(text@, i as int + 1);
                    }
                }
                return None;
            },
        };
        if acc > (usize::MAX - d) / 10 {
            proof {
                assert(decimal(longer) == Some((10 * acc + d) as nat));
                if decimal(text@) is Some {
                    decimal_of_beginning(text@, i as int + 1);
                }
            }
            return None;
        }
        acc = acc * 10 + d;
        i += 1;
    }
    proof {
        assert(text@.subrange(0, n as int) =~= text@);
    }
    Some(acc)
}

/// The groups that the regular expression `pattern` captures in `text`, as
/// `regex::Regex::captures` finds them: the whole match first, then each
/// group of the pattern, `None` for a group that took no part. `None` where
/// there is no match or `pattern` is no regular expression.
pub uninterp spec fn regex_captures(pattern: Seq<char>, text: Seq<char>) -> Option<
    Seq<Option<Seq<char>>>,
>;

/// The character sequences of captured groups.
pub open spec fn groups_view(groups: Option<Vec<Option<String>>>) -> Option<Seq<Option<Seq<char>>>> {
    match groups {
        Some(groups) => Some(groups@.map_values(|group: Option<String>| crate::json::text_of(group))),
        None => None,
    }
}

/// `regex::Regex::new` and `regex::Regex::captures`: the result depends on
/// the pattern and the text alone.
#[verifier::external_body]
fn captures(pattern: &str, text: &str) -> (groups: Option<Vec<Option<String>>>)
    ensures
        groups_view(groups) == regex_captures(pattern@, text@),
{
    let regex = match regex::Regex::new(pattern) {
        Ok(regex) => regex,
        Err(_) => { return None; },
    };
    let found = regex.captures(text)?;
    Some(found.iter().map(|group| group.map(|m| m.as_str().to_owned())).collect())
}

/// What a line of input asks the front-end to do.
#[derive(Debug)]
pub enum Command {
    /// Leave.
    Quit,
    /// Connect to the arbiter.
    Connect,
    /// Ask the arbiter for the list of devices.
    Discover,
    /// Print the devices discovered last.
    Print,
    /// Read or write a parameter of a device.
    Access { request_type: RequestType, device_index: usize, parameter: String, value: Option<String> },
    /// Write a parameter of one device with a token that was minted for
    /// another and doctored.
    Forge { token_device: usize, target_device: usize, parameter: String, written: String },
    /// The line does not have the form of its command.
    InvalidSyntax,
    /// The line names a device by something that is no index.
    InvalidIndex,
    /// The line asks for nothing.
    Nothing,
}

/// The mathematical value of a [`Command`].
pub enum CommandView {
    Quit,
    Connect,
    Discover,
    Print,
    Access {
        request_type: RequestType,
        device_index: usize,
        parameter: Seq<char>,
        value: Option<Seq<char>>,
    },
    Forge { token_device: usize, target_device: usize, parameter: Seq<char>, written: Seq<char> },
    InvalidSyntax,
    InvalidIndex,
    Nothing,
}

impl View for Command {
    type V = CommandView;

    open spec fn view(&self) -> CommandView {
        match self {
            Command::Quit => CommandView::Quit,
            Command::Connect => CommandView::Connect,
            Command::Discover => CommandView::Discover,
            Command::Print => CommandView::Print,
            Command::Access { request_type, device_index, parameter, value } => CommandView::Access {
                request_type: *request_type,
                device_index: *device_index,
                parameter: parameter@,
                value: crate::json::text_of(*value),
            },
            Command::Forge { token_device, target_device, parameter, written } => CommandView::Forge {
                token_device: *token_device,
                target_device: *target_device,
                parameter: parameter@,
                written: written@,
            },
            Command::InvalidSyntax => CommandView::InvalidSyntax,
            Command::InvalidIndex => CommandView::InvalidIndex,
            Command::Nothing => CommandView::Nothing,
        }
    }
}

/// The form of the commands that read and write: the letter `g` or `s`, the
/// index of a device, the name of a parameter and, for a write, a value.
pub open spec fn access_pattern() -> Seq<char> {
    "^([gs]) (\\d+) ([\\w\\-_]+)( [^\\s]+)?$"@
}

/// The form of the command that forges: the letter `f`, the indices of two
/// devices, the name of a parameter and a value.
pub open spec fn forge_pattern() -> Seq<char> {
    "^f (\\d+) (\\d+) ([\\w\\-_]+) ([^\\s]+)$"@
}

/// The command that the groups of [`access_pattern`] make. A write needs a
/// value, which is the fourth group without the blank that leads it; a read
/// takes none.
pub open spec fn access_command(groups: Option<Seq<Option<Seq<char>>>>) -> CommandView {
    match groups {
        Some(g) => if g.len() == 5 && g[1] is Some && g[2] is Some && g[3] is Some {
            match RequestType::of_letter(g[1]->Some_0) {
                None => CommandView::InvalidSyntax,
                Some(request_type) => if request_type == RequestType::Put && g[4] is None {
                    CommandView::InvalidSyntax
                } else {
                    match index_of_text(g[2]->Some_0) {
                        None => CommandView::InvalidIndex,
                        Some(device_index) => CommandView::Access {
                            request_type,
                            device_index,
                            parameter: g[3]->Some_0,
                            value: if request_type == RequestType::Put {
                                Some(without_first(g[4]->Some_0))
                            } else {
                                None
                            },
                        },
                    }
                },
            }
        } else {
            CommandView::InvalidSyntax
        },
        None => CommandView::InvalidSyntax,
    }
}

/// A text without its first character.
pub open spec fn without_first(text: Seq<char>) -> Seq<char> {
    if text.len() > 0 {
        text.subrange(1, text.len() as int)
    } else {
        text
    }
}

/// The command that the groups of [`forge_pattern`] make.
pub open spec fn forge_command(groups: Option<Seq<Option<Seq<char>>>>) -> CommandView {
    match groups {
        Some(g) => if g.len() == 5 && g[1] is Some && g[2] is Some && g[3] is Some && g[4] is Some {
            match (index_of_text(g[1]->Some_0), index_of_text(g[2]->Some_0)) {
                (Some(token_device), Some(target_device)) => CommandView::Forge {
                    token_device,
                    target_device,
                    parameter: g[3]->Some_0,
                    written: g[4]->Some_0,
                },
                _ => CommandView::InvalidIndex,
            }
        } else {
            CommandView::InvalidSyntax
        },
        None => CommandView::InvalidSyntax,
    }
}

/// The command that a line of input makes. Its first character picks the
/// command: `q` quits, `c` connects, `d` discovers, `p` prints, `g` and `s`
/// read and write, `f` forges. The last three must have the form of their
/// pattern. An empty line and every other first character ask for nothing.
pub open spec fn command_of(line: Seq<char>) -> CommandView {
    if line.len() == 0 {
        CommandView::Nothing
    } else if line[0] == 'q' {
        CommandView::Quit
    } else if line[0] == 'c' {
        CommandView::Connect
    } else if line[0] == 'd' {
        CommandView::Discover
    } else if line[0] == 'p' {
        CommandView::Print
    } else if line[0] == 'g' || line[0] == 's' {
        access_command(regex_captures(access_pattern(), line))
    } else if line[0] == 'f' {
        forge_command(regex_captures(forge_pattern(), line))
    } else {
        CommandView::Nothing
    }
}

/// A copy of a text without its first character.
pub fn drop_first_char(text: &str) -> (rest: String)
    ensures
        rest@ == without_first(text@),
{
    let n = text.unicode_len();
    if n > 0 {
        text.substring_char(1, n).to_owned()
    } else {
        text.to_owned()
    }
}

/// Makes the command of the groups of [`access_pattern`].
pub fn read_access_command(groups: Option<Vec<Option<String>>>) -> (command: Command)
    ensures
        command@ == access_command(groups_view(groups)),
{
    let g = match groups {
        Some(g) => g,
        None => { return Command::InvalidSyntax; },
    };
    if g.len() != 5 {
        return Command::InvalidSyntax;
    }
    match (&g[1], &g[2], &g[3]) {
        (Some(letter), Some(index), Some(parameter)) => {
            let request_type = match RequestType::from_letter(letter.as_str()) {
                Some(request_type) => request_type,
                None => { return Command::InvalidSyntax; },
            };
            let value = match (request_type, &g[4]) {
                (RequestType::Put, None) => { return Command::InvalidSyntax; },
                (RequestType::Put, Some(value)) => Some(drop_first_char(value.as_str())),
                (RequestType::Get, _) => None,
            };
            match parse_index(index.as_str()) {
                Some(device_index) => Command::Access {
                    request_type,
                    device_index,
                    parameter: parameter.clone(),
                    value,
                },
                None => Command::InvalidIndex,
            }
        },
        _ => Command::InvalidSyntax,
    }
}

/// Makes the command of the groups of [`forge_pattern`].
pub fn read_forge_command(groups: Option<Vec<Option<String>>>) -> (command: Command)
    ensures
        command@ == forge_command(groups_view(groups)),
{
    let g = match groups {
        Some(g) => g,
        None => { return Command::InvalidSyntax; },
    };
    if g.len() != 5 {
        return Command::InvalidSyntax;
    }
    match (&g[1], &g[2], &g[3], &g[4]) {
        (Some(first), Some(second), Some(parameter), Some(value)) => {
            match (parse_index(first.as_str()), parse_index(second.as_str())) {
                (Some(token_device), Some(target_device)) => Command::Forge {
                    token_device,
                    target_device,
                    parameter: parameter.clone(),
                    written: value.clone(),
                },
                _ => Command::InvalidIndex,
            }
        },
        _ => Command::InvalidSyntax,
    }
}

/// Reads the command that a line of input makes; see [`command_of`].
pub fn parse_command(line: &str) -> (command: Command)
    ensures
        command@ == command_of(line@),
{
    if line.unicode_len() == 0 {
        return Command::Nothing;
    }
    let first = line.get_char(0);
    if first == 'q' {
        Command::Quit
    } else if first == 'c' {
        Command::Connect
    } else if first == 'd' {
        Command::Discover
    } else if first == 'p' {
        Command::Print
    } else if first == 'g' || first == 's' {
        read_access_command(captures("^([gs]) (\\d+) ([\\w\\-_]+)( [^\\s]+)?$", line))
    } else if first == 'f' {
        read_forge_command(captures("^f (\\d+) (\\d+) ([\\w\\-_]+) ([^\\s]+)$", line))
    } else {
        Command::Nothing
    }
}

/// The token that comes of rewriting the audience in the claims of `token`
/// and leaving header and signature as they are. The claims are decoded,
/// their member `aud` is set to `new_audience`, and they are printed and
/// encoded again. `None` where `token` has not three parts or its claims
/// are no JSON object.
pub open spec fn tampered(token: Seq<char>, new_audience: Seq<char>) -> Option<Seq<char>> {
    match compact_parts(token) {
        Some((header, claims, signature)) => match base64url_decode(claims) {
            Some(bytes) => match json_parse(bytes) {
                Some(Json::Object(members)) => Some(
                    header + seq!['.'] + base64url_encode(
                        json_print(Json::Object(members.insert("aud"@, Json::Text(new_audience)))),
                    ) + seq!['.'] + signature,
                ),
                _ => None,
            },
            None => None,
        },
        None => None,
    }
}

/// Rewrites the audience in the claims of a token and leaves the signature
/// as it is: the forgery that a device has to refuse. Gives [`tampered`].
pub fn tamper_with_token(token: &str, new_audience: &str) -> (forged: Option<String>)
    ensures
        crate::json::text_of(forged) == tampered(token@, new_audience@),
{
    let (header, claims, signature) = match split_compact(token) {
        Some(parts) => parts,
        None => { return None; },
    };
    let bytes = match decode(claims.as_str()) {
        Ok(bytes) => bytes,
        Err(_) => { return None; },
    };
    let doc = match parse(bytes.as_slice()) {
        Ok(doc) => doc,
        Err(_) => { return None; },
    };
    if !is_object(&doc) {
        return None;
    }
    let doc = with_member(doc, "aud", from_text(new_audience));
    let printed = match print(&doc) {
        Ok(printed) => printed,
        Err(_) => { return None; },
    };
    let encoded = encode(printed.as_slice());
    proof {
        reveal_strlit(".");
        assert("."@ =~= seq!['.']);
    }
    Some(header.concat(".").concat(encoded.as_str()).concat(".").concat(signature.as_str()))
}

} // verus!
