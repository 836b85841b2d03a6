//! The numbers of the system log, taken from `libc`.
//!
//! `libc` declares them as constants. Each function below hands one of them
//! on and states the value that `libc` gives it on Linux; nothing here is
//! proved, the values are read off the declarations in `libc`.

use vstd::prelude::*;

verus! {

/// `libc::LOG_ERR`, the priority of error conditions: `libc` declares it as 3.
#[verifier::external_body]
pub(crate) fn log_err() -> (r: i32)
    ensures
        r == 3,
{
    libc::LOG_ERR
}

/// `libc::LOG_WARNING`, the priority of warning conditions: `libc` declares it as 4.
#[verifier::external_body]
pub(crate) fn log_warning() -> (r: i32)
    ensures
        r == 4,
{
    libc::LOG_WARNING
}

/// `libc::LOG_INFO`, the priority of informational messages: `libc` declares it as 6.
#[verifier::external_body]
pub(crate) fn log_info() -> (r: i32)
    ensures
        r == 6,
{
    libc::LOG_INFO
}

/// `libc::LOG_DEBUG`, the priority of debug-level messages: `libc` declares it as 7.
#[verifier::external_body]
pub(crate) fn log_debug() -> (r: i32)
    ensures
        r == 7,
{
    libc::LOG_DEBUG
}

/// `libc::LOG_PID`, the option that adds the process id to each message: `libc` declares it as 0x01.
#[verifier::external_body]
pub(crate) fn log_pid() -> (r: i32)
    ensures
        r == 0x01,
{
    libc::LOG_PID
}

/// `libc::LOG_CONS`, the option that falls back to the system console: `libc` declares it as 0x02.
#[verifier::external_body]
pub(crate) fn log_cons() -> (r: i32)
    ensures
        r == 0x02,
{
    libc::LOG_CONS
}

/// `libc::LOG_ODELAY`, the option that delays opening the connection until the first message: `libc` declares it as 0x04.
#[verifier::external_body]
pub(crate) fn log_odelay() -> (r: i32)
    ensures
        r == 0x04,
{
    libc::LOG_ODELAY
}

/// `libc::LOG_NDELAY`, the option that opens the connection at once: `libc` declares it as 0x08.
#[verifier::external_body]
pub(crate) fn log_ndelay() -> (r: i32)
    ensures
        r == 0x08,
{
    libc::LOG_NDELAY
}

/// `libc::LOG_NOWAIT`, the option that does not wait for child processes: `libc` declares it as 0x10.
#[verifier::external_body]
pub(crate) fn log_nowait() -> (r: i32)
    ensures
        r == 0x10,
{
    libc::LOG_NOWAIT
}

/// `libc::LOG_PERROR`, the option that copies each message to standard error: `libc` declares it as 0x20.
#[verifier::external_body]
pub(crate) fn log_perror() -> (r: i32)
    ensures
        r == 0x20,
{
    libc::LOG_PERROR
}

/// `libc::LOG_KERN`, the facility of kernel messages: `libc` declares it as `0`.
#[verifier::external_body]
pub(crate) fn log_kern() -> (r: i32)
    ensures
        r == 0,
{
    libc::LOG_KERN
}

/// `libc::LOG_USER`, the facility of user-level messages: `libc` declares it as `1 << 3`.
#[verifier::external_body]
pub(crate) fn log_user() -> (r: i32)
    ensures
        r == 8,
{
    libc::LOG_USER
}

/// `libc::LOG_MAIL`, the facility of the mail system: `libc` declares it as `2 << 3`.
#[verifier::external_body]
pub(crate) fn log_mail() -> (r: i32)
    ensures
        r == 16,
{
    libc::LOG_MAIL
}

/// `libc::LOG_DAEMON`, the facility of system daemons: `libc` declares it as `3 << 3`.
#[verifier::external_body]
pub(crate) fn log_daemon() -> (r: i32)
    ensures
        r == 24,
{
    libc::LOG_DAEMON
}

/// `libc::LOG_AUTH`, the facility of security and authorization messages: `libc` declares it as `4 << 3`.
#[verifier::external_body]
pub(crate) fn log_auth() -> (r: i32)
    ensures
        r == 32,
{
    libc::LOG_AUTH
}

/// `libc::LOG_SYSLOG`, the facility of messages of the system log itself: `libc` declares it as `5 << 3`.
#[verifier::external_body]
pub(crate) fn log_syslog() -> (r: i32)
    ensures
        r == 40,
{
    libc::LOG_SYSLOG
}

/// `libc::LOG_LPR`, the facility of the line printer subsystem: `libc` declares it as `6 << 3`.
#[verifier::external_body]
pub(crate) fn log_lpr() -> (r: i32)
    ensures
        r == 48,
{
    libc::LOG_LPR
}

/// `libc::LOG_NEWS`, the facility of the network news subsystem: `libc` declares it as `7 << 3`.
#[verifier::external_body]
pub(crate) fn log_news() -> (r: i32)
    ensures
        r == 56,
{
    libc::LOG_NEWS
}

/// `libc::LOG_UUCP`, the facility of the UUCP subsystem: `libc` declares it as `8 << 3`.
#[verifier::external_body]
pub(crate) fn log_uucp() -> (r: i32)
    ensures
        r == 64,
{
    libc::LOG_UUCP
}

/// `libc::LOG_CRON`, the facility of the clock daemon: `libc` declares it as `9 << 3`.
#[verifier::external_body]
pub(crate) fn log_cron() -> (r: i32)
    ensures
        r == 72,
{
    libc::LOG_CRON
}

/// `libc::LOG_AUTHPRIV`, the facility of private security and authorization messages: `libc` declares it as `10 << 3`.
#[verifier::external_body]
pub(crate) fn log_authpriv() -> (r: i32)
    ensures
        r == 80,
{
    libc::LOG_AUTHPRIV
}

/// `libc::LOG_FTP`, the facility of the file transfer daemon: `libc` declares it as `11 << 3`.
#[verifier::external_body]
pub(crate) fn log_ftp() -> (r: i32)
    ensures
        r == 88,
{
    libc::LOG_FTP
}

/// `libc::LOG_LOCAL0`, the facility of the local use 0: `libc` declares it as `16 << 3`.
#[verifier::external_body]
pub(crate) fn log_local0() -> (r: i32)
    ensures
        r == 128,
{
    libc::LOG_LOCAL0
}

/// `libc::LOG_LOCAL1`, the facility of the local use 1: `libc` declares it as `17 << 3`.
#[verifier::external_body]
pub(crate) fn log_local1() -> (r: i32)
    ensures
        r == 136,
{
    libc::LOG_LOCAL1
}

/// `libc::LOG_LOCAL2`, the facility of the local use 2: `libc` declares it as `18 << 3`.
#[verifier::external_body]
pub(crate) fn log_local2() -> (r: i32)
    ensures
        r == 144,
{
    libc::LOG_LOCAL2
}

/// `libc::LOG_LOCAL3`, the facility of the local use 3: `libc` declares it as `19 << 3`.
#[verifier::external_body]
pub(crate) fn log_local3() -> (r: i32)
    ensures
        r == 152,
{
    libc::LOG_LOCAL3
}

/// `libc::LOG_LOCAL4`, the facility of the local use 4: `libc` declares it as `20 << 3`.
#[verifier::external_body]
pub(crate) fn log_local4() -> (r: i32)
    ensures
        r == 160,
{
    libc::LOG_LOCAL4
}

/// `libc::LOG_LOCAL5`, the facility of the local use 5: `libc` declares it as `21 << 3`.
#[verifier::external_body]
pub(crate) fn log_local5() -> (r: i32)
    ensures
        r == 168,
{
    libc::LOG_LOCAL5
}

/// `libc::LOG_LOCAL6`, the facility of the local use 6: `libc` declares it as `22 << 3`.
#[verifier::external_body]
pub(crate) fn log_local6() -> (r: i32)
    ensures
        r == 176,
{
    libc::LOG_LOCAL6
}

/// `libc::LOG_LOCAL7`, the facility of the local use 7: `libc` declares it as `23 << 3`.
#[verifier::external_body]
pub(crate) fn log_local7() -> (r: i32)
    ensures
        r == 184,
{
    libc::LOG_LOCAL7
}

} // verus!
