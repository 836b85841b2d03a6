//! The sink for the system log of the operating system.
//!
//! The sink decides under which identifier, options and facility the process
//! is registered, and for each record at which priority and with which text
//! it is forwarded. The calls into the operating system are the caller's.

use vstd::prelude::*;
use vstd::utf8::{encode_utf8, is_ascii_chars, is_ascii_chars_encode_utf8};

use crate::codes::{
    log_auth, log_authpriv, log_cons, log_cron, log_daemon, log_debug, log_err, log_ftp, log_info,
    log_kern, log_local0, log_local1, log_local2, log_local3, log_local4, log_local5, log_local6,
    log_local7, log_lpr, log_mail, log_ndelay, log_news, log_nowait, log_odelay, log_perror,
    log_pid, log_syslog, log_user, log_uucp, log_warning,
};
use crate::level::{Level, LevelFilter, Metadata, Record};
use crate::Logger;

verus! {

/// One option of the registration with the system log.
#[derive(Clone, Copy, Debug, PartialEq, Eq, Structural)]
pub enum Flag {
    /// Write to the system console when the log cannot be reached.
    Console,
    /// Open the connection at once.
    NoDelay,
    /// Do not wait for child processes.
    NoWait,
    /// Open the connection with the first message.
    Delay,
    /// Copy each message to standard error.
    Perror,
    /// Add the process id to the identifier.
    Pid,
}

impl Flag {
    /// The bit that stands for the option.
    pub open spec fn spec_bit(self) -> i32 {
        match self {
            Flag::Console => 0x02,
            Flag::NoDelay => 0x08,
            Flag::NoWait => 0x10,
            Flag::Delay => 0x04,
            Flag::Perror => 0x20,
            Flag::Pid => 0x01,
        }
    }

    pub fn bit(self) -> (r: i32)
        ensures
            r == self.spec_bit(),
    {
        match self {
            Flag::Console => log_cons(),
            Flag::NoDelay => log_ndelay(),
            Flag::NoWait => log_nowait(),
            Flag::Delay => log_odelay(),
            Flag::Perror => log_perror(),
            Flag::Pid => log_pid(),
        }
    }
}

/// The bit of `flag` where `set` holds it, else 0.
pub open spec fn bit_in(set: Set<Flag>, flag: Flag) -> int {
    if set.contains(flag) {
        flag.spec_bit() as int
    } else {
        0
    }
}

/// The number that stands for a set of options: the sum of their bits.
pub open spec fn bits_of(set: Set<Flag>) -> int {
    bit_in(set, Flag::Console) + bit_in(set, Flag::NoDelay) + bit_in(set, Flag::NoWait) + bit_in(
        set,
        Flag::Delay,
    ) + bit_in(set, Flag::Perror) + bit_in(set, Flag::Pid)
}

/// A set of options: any of the six, in any combination, or none.
#[derive(Clone, Copy, Debug, PartialEq, Eq, PartialOrd, Ord, Hash, Structural)]
pub struct LogOption {
    bits: i32,
}

impl View for LogOption {
    type V = Set<Flag>;

    closed spec fn view(&self) -> Set<Flag> {
        Set::new(|flag: Flag| self.bits & flag.spec_bit() != 0)
    }
}

/// A number below 64 is the sum of its six lowest bits, and joining two such
/// numbers bit by bit stays below 64.
proof fn lemma_six_bits(a: i32, b: i32)
    requires
        0 <= a < 64,
        0 <= b < 64,
    ensures
        a == (a & 0x01) + (a & 0x02) + (a & 0x04) + (a & 0x08) + (a & 0x10) + (a & 0x20),
        a & 0x01 == 0 || a & 0x01 == 0x01,
        a & 0x02 == 0 || a & 0x02 == 0x02,
        a & 0x04 == 0 || a & 0x04 == 0x04,
        a & 0x08 == 0 || a & 0x08 == 0x08,
        a & 0x10 == 0 || a & 0x10 == 0x10,
        a & 0x20 == 0 || a & 0x20 == 0x20,
        0 <= a | b < 64,
        (a | b) & 0x01 != 0 <==> a & 0x01 != 0 || b & 0x01 != 0,
        (a | b) & 0x02 != 0 <==> a & 0x02 != 0 || b & 0x02 != 0,
        (a | b) & 0x04 != 0 <==> a & 0x04 != 0 || b & 0x04 != 0,
        (a | b) & 0x08 != 0 <==> a & 0x08 != 0 || b & 0x08 != 0,
        (a | b) & 0x10 != 0 <==> a & 0x10 != 0 || b & 0x10 != 0,
        (a | b) & 0x20 != 0 <==> a & 0x20 != 0 || b & 0x20 != 0,
{
    assert(0 <= a < 64 && 0 <= b < 64 ==> {
        &&& a == (a & 0x01) + (a & 0x02) + (a & 0x04) + (a & 0x08) + (a & 0x10) + (a & 0x20)
        &&& (a & 0x01 == 0 || a & 0x01 == 0x01)
        &&& (a & 0x02 == 0 || a & 0x02 == 0x02)
        &&& (a & 0x04 == 0 || a & 0x04 == 0x04)
        &&& (a & 0x08 == 0 || a & 0x08 == 0x08)
        &&& (a & 0x10 == 0 || a & 0x10 == 0x10)
        &&& (a & 0x20 == 0 || a & 0x20 == 0x20)
        &&& 0 <= a | b < 64
        &&& ((a | b) & 0x01 != 0 <==> a & 0x01 != 0 || b & 0x01 != 0)
        &&& ((a | b) & 0x02 != 0 <==> a & 0x02 != 0 || b & 0x02 != 0)
        &&& ((a | b) & 0x04 != 0 <==> a & 0x04 != 0 || b & 0x04 != 0)
        &&& ((a | b) & 0x08 != 0 <==> a & 0x08 != 0 || b & 0x08 != 0)
        &&& ((a | b) & 0x10 != 0 <==> a & 0x10 != 0 || b & 0x10 != 0)
        &&& ((a | b) & 0x20 != 0 <==> a & 0x20 != 0 || b & 0x20 != 0)
    }) by (bit_vector);
}

/// Each of the six bits meets itself and none of the others.
proof fn lemma_bits_apart()
    ensures
        forall|f: Flag, g: Flag| (#[trigger] f.spec_bit() & #[trigger] g.spec_bit() != 0) <==> f == g,
        forall|f: Flag| 0 <= #[trigger] f.spec_bit() < 64,
        forall|f: Flag| 0i32 & #[trigger] f.spec_bit() == 0,
{
    assert(0x01i32 & 0x01 != 0 && 0x01i32 & 0x02 == 0 && 0x01i32 & 0x04 == 0 && 0x01i32 & 0x08 == 0
        && 0x01i32 & 0x10 == 0 && 0x01i32 & 0x20 == 0 && 0x02i32 & 0x01 == 0 && 0x02i32 & 0x02 != 0
        && 0x02i32 & 0x04 == 0 && 0x02i32 & 0x08 == 0 && 0x02i32 & 0x10 == 0 && 0x02i32 & 0x20 == 0
        && 0x04i32 & 0x01 == 0 && 0x04i32 & 0x02 == 0 && 0x04i32 & 0x04 != 0 && 0x04i32 & 0x08 == 0
        && 0x04i32 & 0x10 == 0 && 0x04i32 & 0x20 == 0 && 0x08i32 & 0x01 == 0 && 0x08i32 & 0x02 == 0
        && 0x08i32 & 0x04 == 0 && 0x08i32 & 0x08 != 0 && 0x08i32 & 0x10 == 0 && 0x08i32 & 0x20 == 0
        && 0x10i32 & 0x01 == 0 && 0x10i32 & 0x02 == 0 && 0x10i32 & 0x04 == 0 && 0x10i32 & 0x08 == 0
        && 0x10i32 & 0x10 != 0 && 0x10i32 & 0x20 == 0 && 0x20i32 & 0x01 == 0 && 0x20i32 & 0x02 == 0
        && 0x20i32 & 0x04 == 0 && 0x20i32 & 0x08 == 0 && 0x20i32 & 0x10 == 0 && 0x20i32 & 0x20 != 0
        && 0i32 & 0x01 == 0 && 0i32 & 0x02 == 0 && 0i32 & 0x04 == 0 && 0i32 & 0x08 == 0 && 0i32
        & 0x10 == 0 && 0i32 & 0x20 == 0) by (bit_vector);
}

impl LogOption {
    /// Only the six known bits occur.
    #[verifier::type_invariant]
    closed spec fn known_bits_only(self) -> bool {
        0 <= self.bits < 64
    }

    /// No option.
    pub fn empty() -> (r: LogOption)
        ensures
            r@ == Set::<Flag>::empty(),
    {
        let r = LogOption { bits: 0 };
        proof {
            lemma_bits_apart();
            assert(r@ =~= Set::<Flag>::empty());
        }
        r
    }

    /// The one option `flag`.
    pub fn single(flag: Flag) -> (r: LogOption)
        ensures
            r@ == set![flag],
    {
        proof {
            lemma_bits_apart();
        }
        let r = LogOption { bits: flag.bit() };
        assert(r@ =~= set![flag]);
        r
    }

    /// The options of `self` together with those of `other`.
    pub fn union(self, other: LogOption) -> (r: LogOption)
        ensures
            r@ == self@.union(other@),
    {
        proof {
            use_type_invariant(&self);
            use_type_invariant(&other);
            lemma_six_bits(self.bits, other.bits);
        }
        let r = LogOption { bits: self.bits | other.bits };
        assert(r@ =~= self@.union(other@));
        r
    }

    /// Whether `flag` is among the options.
    pub fn contains(&self, flag: Flag) -> (r: bool)
        ensures
            r == self@.contains(flag),
    {
        self.bits & flag.bit() != 0
    }

    /// The options as the one number that the system log takes.
    pub fn bits(&self) -> (r: i32)
        ensures
            r == bits_of(self@),
    {
        proof {
            use_type_invariant(self);
            lemma_six_bits(self.bits, 0);
        }
        self.bits
    }
}

impl Default for LogOption {
    fn default() -> (r: LogOption)
        ensures
            r@ == Set::<Flag>::empty(),
    {
        LogOption::empty()
    }
}

/// A sum of the six bits, each taken or left out, holds exactly the bits
/// that were taken.
proof fn lemma_sum_of_bits(a: i32, b: i32, c: i32, d: i32, e: i32, f: i32)
    requires
        a == 0 || a == 0x01,
        b == 0 || b == 0x02,
        c == 0 || c == 0x04,
        d == 0 || d == 0x08,
        e == 0 || e == 0x10,
        f == 0 || f == 0x20,
    ensures
        0 <= a + b + c + d + e + f < 64,
        ((a + b + c + d + e + f) as i32) & 0x01 == a,
        ((a + b + c + d + e + f) as i32) & 0x02 == b,
        ((a + b + c + d + e + f) as i32) & 0x04 == c,
        ((a + b + c + d + e + f) as i32) & 0x08 == d,
        ((a + b + c + d + e + f) as i32) & 0x10 == e,
        ((a + b + c + d + e + f) as i32) & 0x20 == f,
{
    let sum: i32 = (a + b + c + d + e + f) as i32;
    assert(sum & 0x01 == a && sum & 0x02 == b && sum & 0x04 == c && sum & 0x08 == d && sum & 0x10
        == e && sum & 0x20 == f) by (bit_vector)
        requires
            a == 0 || a == 0x01,
            b == 0 || b == 0x02,
            c == 0 || c == 0x04,
            d == 0 || d == 0x08,
            e == 0 || e == 0x10,
            f == 0 || f == 0x20,
            sum == a + b + c + d + e + f,
    ;
}

/// The six options are independent: every combination of them, the empty
/// one too, has a number, and the number tells of each option whether the
/// combination holds it. So two combinations with one number are the same.
pub proof fn lemma_options_independent(set: Set<Flag>, flag: Flag)
    ensures
        0 <= bits_of(set) < 64,
        ((bits_of(set) as i32) & flag.spec_bit() != 0) <==> set.contains(flag),
{
    lemma_sum_of_bits(
        bit_in(set, Flag::Pid) as i32,
        bit_in(set, Flag::Console) as i32,
        bit_in(set, Flag::Delay) as i32,
        bit_in(set, Flag::NoDelay) as i32,
        bit_in(set, Flag::NoWait) as i32,
        bit_in(set, Flag::Perror) as i32,
    );
}

/// The category under which the system log files the messages of a process.
#[derive(Clone, Copy, Debug, PartialEq, Eq, Structural)]
pub enum Facility {
    /// Security and authorization messages.
    Auth,
    /// Security and authorization messages that are private.
    AuthPriv,
    /// The clock daemon.
    Cron,
    /// System daemons without a facility of their own.
    Daemon,
    /// The file transfer daemon.
    Ftp,
    /// Kernel messages.
    Kern,
    /// Reserved for local use.
    Local0,
    /// Reserved for local use.
    Local1,
    /// Reserved for local use.
    Local2,
    /// Reserved for local use.
    Local3,
    /// Reserved for local use.
    Local4,
    /// Reserved for local use.
    Local5,
    /// Reserved for local use.
    Local6,
    /// Reserved for local use.
    Local7,
    /// The line printer subsystem.
    Lpr,
    /// The mail system.
    Mail,
    /// The network news subsystem.
    News,
    /// Messages of the system log itself.
    Syslog,
    /// User-level messages; the default.
    User,
    /// The UUCP subsystem.
    Uucp,
}

impl Facility {
    /// The number of the facility: its place in the list of the system log,
    /// times eight.
    pub open spec fn spec_code(self) -> i32 {
        match self {
            Facility::Auth => 32,
            Facility::AuthPriv => 80,
            Facility::Cron => 72,
            Facility::Daemon => 24,
            Facility::Ftp => 88,
            Facility::Kern => 0,
            Facility::Local0 => 128,
            Facility::Local1 => 136,
            Facility::Local2 => 144,
            Facility::Local3 => 152,
            Facility::Local4 => 160,
            Facility::Local5 => 168,
            Facility::Local6 => 176,
            Facility::Local7 => 184,
            Facility::Lpr => 48,
            Facility::Mail => 16,
            Facility::News => 56,
            Facility::Syslog => 40,
            Facility::User => 8,
            Facility::Uucp => 64,
        }
    }

    pub fn code(self) -> (r: i32)
        ensures
            r == self.spec_code(),
    {
        match self {
            Facility::Auth => log_auth(),
            Facility::AuthPriv => log_authpriv(),
            Facility::Cron => log_cron(),
            Facility::Daemon => log_daemon(),
            Facility::Ftp => log_ftp(),
            Facility::Kern => log_kern(),
            Facility::Local0 => log_local0(),
            Facility::Local1 => log_local1(),
            Facility::Local2 => log_local2(),
            Facility::Local3 => log_local3(),
            Facility::Local4 => log_local4(),
            Facility::Local5 => log_local5(),
            Facility::Local6 => log_local6(),
            Facility::Local7 => log_local7(),
            Facility::Lpr => log_lpr(),
            Facility::Mail => log_mail(),
            Facility::News => log_news(),
            Facility::Syslog => log_syslog(),
            Facility::User => log_user(),
            Facility::Uucp => log_uucp(),
        }
    }
}

impl Default for Facility {
    fn default() -> (r: Facility)
        ensures
            r == Facility::User,
    {
        Facility::User
    }
}

/// The priority at which the system log takes a record of `level`. It has
/// nothing finer than its debug priority, so `Trace` shares it with `Debug`.
pub open spec fn priority_of(level: Level) -> i32 {
    match level {
        Level::Error => 3,
        Level::Warn => 4,
        Level::Info => 6,
        Level::Debug => 7,
        Level::Trace => 7,
    }
}

/// A priority of the system log, as the number it takes.
pub struct Cint(pub i32);

impl From<Level> for Cint {
    fn from(value: Level) -> (r: Cint)
        ensures
            r.0 == priority_of(value),
    {
        Cint(
            match value {
                Level::Error => log_err(),
                Level::Warn => log_warning(),
                Level::Info => log_info(),
                Level::Debug => log_debug(),
                Level::Trace => log_debug(),
            },
        )
    }
}

impl vstd::std_specs::convert::FromSpecImpl<Level> for Cint {
    open spec fn obeys_from_spec() -> bool {
        true
    }

    open spec fn from_spec(value: Level) -> Cint {
        Cint(priority_of(value))
    }
}

/// How a process registers with the system log.
#[derive(Clone, Debug)]
pub struct Config {
    /// The name put before each message; empty to leave the choice to the
    /// system, which takes the name of the program. A name with a zero byte
    /// cannot be handed to the system and counts as empty.
    pub identifier: String,
    pub logopt: LogOption,
    pub facility: Facility,
}

/// A registration as plain values.
pub struct ConfigView {
    pub identifier: Seq<char>,
    pub logopt: Set<Flag>,
    pub facility: Facility,
}

impl View for Config {
    type V = ConfigView;

    open spec fn view(&self) -> ConfigView {
        ConfigView {
            identifier: self.identifier@,
            logopt: self.logopt@,
            facility: self.facility,
        }
    }
}

/// The registration that is used where none is given: no identifier, no
/// option, the facility `User`.
pub open spec fn default_config() -> ConfigView {
    ConfigView { identifier: Seq::<char>::empty(), logopt: Set::<Flag>::empty(), facility: Facility::User }
}

impl Default for Config {
    fn default() -> (r: Config)
        ensures
            r@ == default_config(),
    {
        Config {
            identifier: String::new(),
            logopt: LogOption::empty(),
            facility: Facility::User,
        }
    }
}

/// What the operating system is told when the process registers.
pub struct Registration {
    /// The identifier, or `None` to leave the choice to the system.
    pub ident: Option<String>,
    /// The options as one number.
    pub logopt: i32,
    /// The number of the facility.
    pub facility: i32,
}

/// A registration request as plain values.
pub struct RegistrationView {
    pub ident: Option<Seq<char>>,
    pub logopt: int,
    pub facility: int,
}

impl View for Registration {
    type V = RegistrationView;

    open spec fn view(&self) -> RegistrationView {
        RegistrationView {
            ident: match self.ident {
                Some(name) => Some(name@),
                None => None,
            },
            logopt: self.logopt as int,
            facility: self.facility as int,
        }
    }
}

/// The request that a registration asks for: no identifier where it is
/// empty, the options as the sum of their bits, the facility as its number.
pub open spec fn registration_of(config: ConfigView) -> RegistrationView {
    RegistrationView {
        ident: if config.identifier.len() == 0 {
            None
        } else {
            Some(config.identifier)
        },
        logopt: bits_of(config.logopt),
        facility: config.facility.spec_code() as int,
    }
}

/// Prepares the registration of the process with the system log.
pub fn openlog(ident: &str, logopt: LogOption, facility: Facility) -> (r: Registration)
    ensures
        r@ == registration_of(ConfigView { identifier: ident@, logopt: logopt@, facility }),
{
    let ident = if ident.is_empty() {
        None
    } else {
        Some(ident.to_owned())
    };
    Registration { ident, logopt: logopt.bits(), facility: facility.code() }
}

/// `at` is the place of the first zero among `bytes`.
pub open spec fn is_first_nul(bytes: Seq<u8>, at: int) -> bool {
    &&& 0 <= at < bytes.len()
    &&& bytes[at] == 0
    &&& forall|i: int| 0 <= i < at ==> bytes[i] != 0
}

/// The place of the first zero among `bytes`, where there is one.
pub open spec fn first_nul(bytes: Seq<u8>) -> int {
    choose|at: int| is_first_nul(bytes, at)
}

/// The text can be handed to the operating system, which ends a text at the
/// first zero byte: written in UTF-8 it holds none.
pub open spec fn nul_free(text: Seq<char>) -> bool {
    !encode_utf8(text).contains(0u8)
}

/// Looks for the first zero byte.
pub fn find_nul(bytes: &[u8]) -> (r: Option<usize>)
    ensures
        r matches Some(at) ==> is_first_nul(bytes@, at as int) && at == first_nul(bytes@),
        r is None <==> !bytes@.contains(0u8),
{
    let mut i: usize = 0;
    while i < bytes.len()
        invariant
            i <= bytes.len(),
            forall|j: int| 0 <= j < i ==> bytes@[j] != 0,
        decreases bytes.len() - i,
    {
        if bytes[i] == 0 {
            assert(is_first_nul(bytes@, i as int));
            return Some(i);
        }
        i += 1;
    }
    None
}

/// Whether the text can be handed to the operating system.
pub fn is_nul_free(text: &str) -> (r: bool)
    ensures
        r == nul_free(text@),
{
    find_nul(text.as_bytes()).is_none()
}

/// The digit for a number below ten.
pub open spec fn digit(d: nat) -> char {
    if d == 0 {
        '0'
    } else if d == 1 {
        '1'
    } else if d == 2 {
        '2'
    } else if d == 3 {
        '3'
    } else if d == 4 {
        '4'
    } else if d == 5 {
        '5'
    } else if d == 6 {
        '6'
    } else if d == 7 {
        '7'
    } else if d == 8 {
        '8'
    } else {
        '9'
    }
}

/// A number in decimal digits, without leading zeros.
pub open spec fn decimal(n: nat) -> Seq<char>
    decreases n,
{
    if n < 10 {
        seq![digit(n)]
    } else {
        decimal(n / 10).push(digit(n % 10))
    }
}

/// Appends `n` in decimal digits to `out`.
pub fn push_decimal(out: &mut String, n: usize)
    ensures
        final(out)@ == old(out)@ + decimal(n as nat),
    decreases n,
{
    if n >= 10 {
        push_decimal(out, n / 10);
    }
    proof {
        reveal_strlit("0");
        reveal_strlit("1");
        reveal_strlit("2");
        reveal_strlit("3");
        reveal_strlit("4");
        reveal_strlit("5");
        reveal_strlit("6");
        reveal_strlit("7");
        reveal_strlit("8");
        reveal_strlit("9");
    }
    let last: usize = n % 10;
    let text = if last == 0 {
        "0"
    } else if last == 1 {
        "1"
    } else if last == 2 {
        "2"
    } else if last == 3 {
        "3"
    } else if last == 4 {
        "4"
    } else if last == 5 {
        "5"
    } else if last == 6 {
        "6"
    } else if last == 7 {
        "7"
    } else if last == 8 {
        "8"
    } else {
        "9"
    };
    assert(text@ =~= seq![digit(last as nat)]);
    out.append(text);
    assert(out@ =~= old(out)@ + decimal(n as nat));
}

/// What stands in for a message that cannot be handed over, because it has
/// a zero byte at place `at`.
pub open spec fn replacement(at: nat) -> Seq<char> {
    "Original log message invalid: nul byte found in provided data at position: "@ + decimal(at)
}

/// One message for the system log.
pub struct Delivery {
    /// The priority, as the number that the system log takes.
    pub priority: i32,
    /// The text; it holds no zero byte.
    pub message: String,
}

/// A delivery as plain values.
pub struct DeliveryView {
    pub priority: int,
    pub message: Seq<char>,
}

impl View for Delivery {
    type V = DeliveryView;

    open spec fn view(&self) -> DeliveryView {
        DeliveryView { priority: self.priority as int, message: self.message@ }
    }
}

/// What is delivered for a message at a level. A message that can be handed
/// over goes as it is, at the priority of its level. One with a zero byte is
/// not dropped: a text that says so goes in its place, as an error.
pub open spec fn delivery_of(level: Level, message: Seq<char>) -> DeliveryView {
    if nul_free(message) {
        DeliveryView { priority: priority_of(level) as int, message }
    } else {
        DeliveryView {
            priority: priority_of(Level::Error) as int,
            message: replacement(first_nul(encode_utf8(message)) as nat),
        }
    }
}

impl Delivery {
    /// Decides what the system log gets for `message` at `level`.
    pub fn new(level: Level, message: &str) -> (r: Delivery)
        ensures
            r@ == delivery_of(level, message@),
            nul_free(r@.message),
    {
        proof {
            lemma_delivery_nul_free(level, message@);
        }
        match find_nul(message.as_bytes()) {
            None => Delivery { priority: Cint::from(level).0, message: message.to_owned() },
            Some(at) => {
                let mut text = "Original log message invalid: ".to_owned();
                text.append("nul byte found in provided data at position: ");
                push_decimal(&mut text, at);
                proof {
                    reveal_strlit("Original log message invalid: ");
                    reveal_strlit("nul byte found in provided data at position: ");
                    reveal_strlit(
                        "Original log message invalid: nul byte found in provided data at position: ",
                    );
                    assert(text@ =~= replacement(at as nat));
                }
                Delivery { priority: Cint::from(Level::Error).0, message: text }
            },
        }
    }
}

/// The request with which a sink registers for a configuration: that of the
/// configuration where its identifier can be handed to the operating system,
/// else that of the same configuration without an identifier.
pub open spec fn request_of(config: ConfigView) -> RegistrationView {
    if nul_free(config.identifier) {
        registration_of(config)
    } else {
        registration_of(
            ConfigView {
                identifier: Seq::<char>::empty(),
                logopt: config.logopt,
                facility: config.facility,
            },
        )
    }
}

/// The sink for the system log.
pub struct Syslog {
    inner: Logger,
    registration: Registration,
    format: String,
}

impl Syslog {
    /// The template is the one placeholder for a text, so that no message is
    /// ever read as a template, and the identifier can be handed over.
    #[verifier::type_invariant]
    closed spec fn well_formed(self) -> bool {
        &&& self.format@ == "%s"@
        &&& self.registration.ident matches Some(name) ==> nul_free(name@)
    }

    /// The threshold of the sink.
    pub closed spec fn filter(&self) -> LevelFilter {
        self.inner.filter
    }

    /// The request with which the sink registers.
    pub closed spec fn request(&self) -> RegistrationView {
        self.registration@
    }

    /// Sets up the sink for a registration. Every configuration gives a
    /// sink. An identifier with a zero byte cannot be handed to the operating
    /// system; the sink then registers without an identifier, as for an empty
    /// one, and keeps the options and the facility.
    pub fn new(logger: Logger, config: &Config) -> (r: Syslog)
        ensures
            r.filter() == logger.filter,
            r.request() == request_of(config@),
            nul_free(config.identifier@) ==> r.request() == registration_of(config@),
            !nul_free(config.identifier@) ==> r.request().ident is None,
    {
        let registration = if is_nul_free(config.identifier.as_str()) {
            openlog(config.identifier.as_str(), config.logopt, config.facility)
        } else {
            openlog("", config.logopt, config.facility)
        };
        proof {
            reveal_strlit("");
            assert(""@ =~= Seq::<char>::empty());
        }
        Syslog { inner: logger, registration, format: "%s".to_owned() }
    }

    /// The request to make of the operating system, once, before the first
    /// record is forwarded.
    pub fn registration(&self) -> (r: &Registration)
        ensures
            r@ == self.request(),
            r.ident matches Some(name) ==> nul_free(name@),
    {
        proof {
            use_type_invariant(self);
        }
        &self.registration
    }

    /// The template to forward every message with: it stands for one text.
    pub fn format(&self) -> (r: &str)
        ensures
            r@ == "%s"@,
    {
        proof {
            use_type_invariant(self);
        }
        self.format.as_str()
    }

    pub fn enabled(&self, metadata: &Metadata) -> (r: bool)
        ensures
            r == self.filter().permits(metadata.level),
    {
        self.inner.enabled(metadata)
    }

    /// Decides what is forwarded for a record: nothing where the threshold
    /// does not let it pass, else one message.
    pub fn log(&self, record: &Record) -> (r: Option<Delivery>)
        ensures
            r is Some <==> self.filter().permits(record@.level),
            r matches Some(delivery) ==> delivery@ == delivery_of(record@.level, record@.message)
                && nul_free(delivery@.message),
    {
        if self.inner.enabled(&record.metadata) {
            Some(Delivery::new(record.metadata.level, record.message.as_str()))
        } else {
            None
        }
    }
}

/// No digit is the zero character, and all are ASCII.
proof fn lemma_decimal_plain(n: nat)
    ensures
        is_ascii_chars(decimal(n)),
        forall|i: int| 0 <= i < decimal(n).len() ==> decimal(n)[i] != '\0',
    decreases n,
{
    if n >= 10 {
        lemma_decimal_plain(n / 10);
    }
}

/// The text that stands in for a message can itself be handed over.
pub proof fn lemma_replacement_nul_free(at: nat)
    ensures
        nul_free(replacement(at)),
{
    let head = "Original log message invalid: nul byte found in provided data at position: "@;
    reveal_strlit("Original log message invalid: nul byte found in provided data at position: ");
    lemma_decimal_plain(at);
    let text = replacement(at);
    assert forall|i: int| 0 <= i < text.len() implies '\0' < #[trigger] text[i] <= '\u{7f}' by {
        if i < head.len() {
            assert(text[i] == head[i]);
        } else {
            assert(text[i] == decimal(at)[i - head.len()]);
        }
    }
    is_ascii_chars_encode_utf8(text);
    let bytes = encode_utf8(text);
    assert forall|i: int| 0 <= i < bytes.len() implies bytes[i] != 0 by {
        assert(text[i] as u8 == bytes[i]);
    }
}

/// Whatever the message, what is delivered for it can be handed to the
/// operating system: no record is lost for what its message holds.
pub proof fn lemma_delivery_nul_free(level: Level, message: Seq<char>)
    ensures
        nul_free(delivery_of(level, message).message),
{
    if !nul_free(message) {
        lemma_replacement_nul_free(first_nul(encode_utf8(message)) as nat);
    }
}

/// A message with a zero byte is delivered as an error, at whatever level it
/// was logged, and the text in its place names the place of the first zero.
pub proof fn lemma_nul_forces_error(level: Level, message: Seq<char>)
    requires
        !nul_free(message),
    ensures
        delivery_of(level, message).priority == priority_of(Level::Error),
        delivery_of(level, message) == delivery_of(Level::Error, message),
        is_first_nul(encode_utf8(message), first_nul(encode_utf8(message))),
{
    let bytes = encode_utf8(message);
    let some = choose|i: int| 0 <= i < bytes.len() && bytes[i] == 0u8;
    lemma_first_nul_exists(bytes, some);
}

/// Where a zero stands at `at`, there is a first one, at `at` or before.
proof fn lemma_first_nul_exists(bytes: Seq<u8>, at: int)
    requires
        0 <= at < bytes.len(),
        bytes[at] == 0,
    ensures
        is_first_nul(bytes, first_nul(bytes)),
        first_nul(bytes) <= at,
    decreases at,
{
    if exists|i: int| 0 <= i < at && bytes[i] == 0 {
        let before = choose|i: int| 0 <= i < at && bytes[i] == 0;
        lemma_first_nul_exists(bytes, before);
    } else {
        assert(is_first_nul(bytes, at));
    }
}

/// `Error`, `Warn` and `Info` have a priority each, and `Debug` and `Trace`
/// share one.
pub proof fn lemma_priorities(a: Level, b: Level)
    ensures
        priority_of(a) == priority_of(b) <==> a == b || (a == Level::Debug && b == Level::Trace) || (a
            == Level::Trace && b == Level::Debug),
        a.at_least_as_severe_as(b) ==> priority_of(a) <= priority_of(b),
{
}

} // verus!
