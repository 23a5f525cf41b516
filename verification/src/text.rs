//! Fixed byte strings of the wire protocol: method and action names, query
//! and header keys, status lines, body scaffolding and response messages.
//! Each constant comes as a spec function giving the exact bytes and an
//! executable function proved to return them.

use vstd::prelude::*;

verus! {

/// The bytes of `"GET"`.
pub open spec fn spec_tok_get() -> Seq<u8> {
    seq![71u8, 69u8, 84u8]
}

pub fn tok_get() -> (r: Vec<u8>)
    ensures
        r@ == spec_tok_get(),
{
    let r: Vec<u8> = vec![71u8, 69u8, 84u8];
    proof {
        assert(r@ =~= spec_tok_get());
    }
    r
}

/// The bytes of `"login"`.
pub open spec fn spec_act_login() -> Seq<u8> {
    seq![108u8, 111u8, 103u8, 105u8, 110u8]
}

pub fn act_login() -> (r: Vec<u8>)
    ensures
        r@ == spec_act_login(),
{
    let r: Vec<u8> = vec![108u8, 111u8, 103u8, 105u8, 110u8];
    proof {
        assert(r@ =~= spec_act_login());
    }
    r
}

/// The bytes of `"logoff"`.
pub open spec fn spec_act_logoff() -> Seq<u8> {
    seq![108u8, 111u8, 103u8, 111u8, 102u8, 102u8]
}

pub fn act_logoff() -> (r: Vec<u8>)
    ensures
        r@ == spec_act_logoff(),
{
    let r: Vec<u8> = vec![108u8, 111u8, 103u8, 111u8, 102u8, 102u8];
    proof {
        assert(r@ =~= spec_act_logoff());
    }
    r
}

/// The bytes of `"finger"`.
pub open spec fn spec_act_finger() -> Seq<u8> {
    seq![102u8, 105u8, 110u8, 103u8, 101u8, 114u8]
}

pub fn act_finger() -> (r: Vec<u8>)
    ensures
        r@ == spec_act_finger(),
{
    let r: Vec<u8> = vec![102u8, 105u8, 110u8, 103u8, 101u8, 114u8];
    proof {
        assert(r@ =~= spec_act_finger());
    }
    r
}

/// The bytes of `"check"`.
pub open spec fn spec_act_check() -> Seq<u8> {
    seq![99u8, 104u8, 101u8, 99u8, 107u8]
}

pub fn act_check() -> (r: Vec<u8>)
    ensures
        r@ == spec_act_check(),
{
    let r: Vec<u8> = vec![99u8, 104u8, 101u8, 99u8, 107u8];
    proof {
        assert(r@ =~= spec_act_check());
    }
    r
}

/// The bytes of `"bump"`.
pub open spec fn spec_act_bump() -> Seq<u8> {
    seq![98u8, 117u8, 109u8, 112u8]
}

pub fn act_bump() -> (r: Vec<u8>)
    ensures
        r@ == spec_act_bump(),
{
    let r: Vec<u8> = vec![98u8, 117u8, 109u8, 112u8];
    proof {
        assert(r@ =~= spec_act_bump());
    }
    r
}

/// The bytes of `"list"`.
pub open spec fn spec_act_list() -> Seq<u8> {
    seq![108u8, 105u8, 115u8, 116u8]
}

pub fn act_list() -> (r: Vec<u8>)
    ensures
        r@ == spec_act_list(),
{
    let r: Vec<u8> = vec![108u8, 105u8, 115u8, 116u8];
    proof {
        assert(r@ =~= spec_act_list());
    }
    r
}

/// The bytes of `"register"`.
pub open spec fn spec_act_register() -> Seq<u8> {
    seq![114u8, 101u8, 103u8, 105u8, 115u8, 116u8, 101u8, 114u8]
}

pub fn act_register() -> (r: Vec<u8>)
    ensures
        r@ == spec_act_register(),
{
    let r: Vec<u8> = vec![114u8, 101u8, 103u8, 105u8, 115u8, 116u8, 101u8, 114u8];
    proof {
        assert(r@ =~= spec_act_register());
    }
    r
}

/// The bytes of `"deregister"`.
pub open spec fn spec_act_deregister() -> Seq<u8> {
    seq![100u8, 101u8, 114u8, 101u8, 103u8, 105u8, 115u8, 116u8, 101u8, 114u8]
}

pub fn act_deregister() -> (r: Vec<u8>)
    ensures
        r@ == spec_act_deregister(),
{
    let r: Vec<u8> = vec![100u8, 101u8, 114u8, 101u8, 103u8, 105u8, 115u8, 116u8, 101u8, 114u8];
    proof {
        assert(r@ =~= spec_act_deregister());
    }
    r
}

/// The bytes of `"username"`.
pub open spec fn spec_key_username() -> Seq<u8> {
    seq![117u8, 115u8, 101u8, 114u8, 110u8, 97u8, 109u8, 101u8]
}

pub fn key_username() -> (r: Vec<u8>)
    ensures
        r@ == spec_key_username(),
{
    let r: Vec<u8> = vec![117u8, 115u8, 101u8, 114u8, 110u8, 97u8, 109u8, 101u8];
    proof {
        assert(r@ =~= spec_key_username());
    }
    r
}

/// The bytes of `"key"`.
pub open spec fn spec_key_key() -> Seq<u8> {
    seq![107u8, 101u8, 121u8]
}

pub fn key_key() -> (r: Vec<u8>)
    ensures
        r@ == spec_key_key(),
{
    let r: Vec<u8> = vec![107u8, 101u8, 121u8];
    proof {
        assert(r@ =~= spec_key_key());
    }
    r
}

/// The bytes of `"user"`.
pub open spec fn spec_key_user() -> Seq<u8> {
    seq![117u8, 115u8, 101u8, 114u8]
}

pub fn key_user() -> (r: Vec<u8>)
    ensures
        r@ == spec_key_user(),
{
    let r: Vec<u8> = vec![117u8, 115u8, 101u8, 114u8];
    proof {
        assert(r@ =~= spec_key_user());
    }
    r
}

/// The bytes of `"status"`.
pub open spec fn spec_key_status() -> Seq<u8> {
    seq![115u8, 116u8, 97u8, 116u8, 117u8, 115u8]
}

pub fn key_status() -> (r: Vec<u8>)
    ensures
        r@ == spec_key_status(),
{
    let r: Vec<u8> = vec![115u8, 116u8, 97u8, 116u8, 117u8, 115u8];
    proof {
        assert(r@ =~= spec_key_status());
    }
    r
}

/// The bytes of `"Authorization"`.
pub open spec fn spec_hdr_authorization() -> Seq<u8> {
    seq![65u8, 117u8, 116u8, 104u8, 111u8, 114u8, 105u8, 122u8, 97u8, 116u8, 105u8, 111u8, 110u8]
}

pub fn hdr_authorization() -> (r: Vec<u8>)
    ensures
        r@ == spec_hdr_authorization(),
{
    let r: Vec<u8> = vec![65u8, 117u8, 116u8, 104u8, 111u8, 114u8, 105u8, 122u8, 97u8, 116u8, 105u8, 111u8, 110u8];
    proof {
        assert(r@ =~= spec_hdr_authorization());
    }
    r
}

/// The bytes of `"200 OK"`.
pub open spec fn spec_line_ok() -> Seq<u8> {
    seq![50u8, 48u8, 48u8, 32u8, 79u8, 75u8]
}

pub fn line_ok() -> (r: Vec<u8>)
    ensures
        r@ == spec_line_ok(),
{
    let r: Vec<u8> = vec![50u8, 48u8, 48u8, 32u8, 79u8, 75u8];
    proof {
        assert(r@ =~= spec_line_ok());
    }
    r
}

/// The bytes of `"400 Bad Request"`.
pub open spec fn spec_line_bad() -> Seq<u8> {
    seq![52u8, 48u8, 48u8, 32u8, 66u8, 97u8, 100u8, 32u8, 82u8, 101u8, 113u8, 117u8, 101u8, 115u8, 116u8]
}

pub fn line_bad() -> (r: Vec<u8>)
    ensures
        r@ == spec_line_bad(),
{
    let r: Vec<u8> = vec![52u8, 48u8, 48u8, 32u8, 66u8, 97u8, 100u8, 32u8, 82u8, 101u8, 113u8, 117u8, 101u8, 115u8, 116u8];
    proof {
        assert(r@ =~= spec_line_bad());
    }
    r
}

/// The bytes of `"401 Unauthorized"`.
pub open spec fn spec_line_unauth() -> Seq<u8> {
    seq![52u8, 48u8, 49u8, 32u8, 85u8, 110u8, 97u8, 117u8, 116u8, 104u8, 111u8, 114u8, 105u8, 122u8, 101u8, 100u8]
}

pub fn line_unauth() -> (r: Vec<u8>)
    ensures
        r@ == spec_line_unauth(),
{
    let r: Vec<u8> = vec![52u8, 48u8, 49u8, 32u8, 85u8, 110u8, 97u8, 117u8, 116u8, 104u8, 111u8, 114u8, 105u8, 122u8, 101u8, 100u8];
    proof {
        assert(r@ =~= spec_line_unauth());
    }
    r
}

/// The bytes of `"404 Not Found"`.
pub open spec fn spec_line_not_found() -> Seq<u8> {
    seq![52u8, 48u8, 52u8, 32u8, 78u8, 111u8, 116u8, 32u8, 70u8, 111u8, 117u8, 110u8, 100u8]
}

pub fn line_not_found() -> (r: Vec<u8>)
    ensures
        r@ == spec_line_not_found(),
{
    let r: Vec<u8> = vec![52u8, 48u8, 52u8, 32u8, 78u8, 111u8, 116u8, 32u8, 70u8, 111u8, 117u8, 110u8, 100u8];
    proof {
        assert(r@ =~= spec_line_not_found());
    }
    r
}

/// The bytes of `"500 Server Error"`.
pub open spec fn spec_line_server_error() -> Seq<u8> {
    seq![53u8, 48u8, 48u8, 32u8, 83u8, 101u8, 114u8, 118u8, 101u8, 114u8, 32u8, 69u8, 114u8, 114u8, 111u8, 114u8]
}

pub fn line_server_error() -> (r: Vec<u8>)
    ensures
        r@ == spec_line_server_error(),
{
    let r: Vec<u8> = vec![53u8, 48u8, 48u8, 32u8, 83u8, 101u8, 114u8, 118u8, 101u8, 114u8, 32u8, 69u8, 114u8, 114u8, 111u8, 114u8];
    proof {
        assert(r@ =~= spec_line_server_error());
    }
    r
}

/// The bytes of `"HTTP/1.1 "`.
pub open spec fn spec_http_prefix() -> Seq<u8> {
    seq![72u8, 84u8, 84u8, 80u8, 47u8, 49u8, 46u8, 49u8, 32u8]
}

pub fn http_prefix() -> (r: Vec<u8>)
    ensures
        r@ == spec_http_prefix(),
{
    let r: Vec<u8> = vec![72u8, 84u8, 84u8, 80u8, 47u8, 49u8, 46u8, 49u8, 32u8];
    proof {
        assert(r@ =~= spec_http_prefix());
    }
    r
}

/// The bytes of `"\r\n"`.
pub open spec fn spec_crlf() -> Seq<u8> {
    seq![13u8, 10u8]
}

pub fn crlf() -> (r: Vec<u8>)
    ensures
        r@ == spec_crlf(),
{
    let r: Vec<u8> = vec![13u8, 10u8];
    proof {
        assert(r@ =~= spec_crlf());
    }
    r
}

/// The bytes of `"Content-Type: text/html\r\nContent-Length: "`.
pub open spec fn spec_content_headers() -> Seq<u8> {
    seq![67u8, 111u8, 110u8, 116u8, 101u8, 110u8, 116u8, 45u8, 84u8, 121u8, 112u8, 101u8, 58u8, 32u8, 116u8, 101u8, 120u8, 116u8, 47u8, 104u8, 116u8, 109u8, 108u8, 13u8, 10u8, 67u8, 111u8, 110u8, 116u8, 101u8, 110u8, 116u8, 45u8, 76u8, 101u8, 110u8, 103u8, 116u8, 104u8, 58u8, 32u8]
}

pub fn content_headers() -> (r: Vec<u8>)
    ensures
        r@ == spec_content_headers(),
{
    let r: Vec<u8> = vec![67u8, 111u8, 110u8, 116u8, 101u8, 110u8, 116u8, 45u8, 84u8, 121u8, 112u8, 101u8, 58u8, 32u8, 116u8, 101u8, 120u8, 116u8, 47u8, 104u8, 116u8, 109u8, 108u8, 13u8, 10u8, 67u8, 111u8, 110u8, 116u8, 101u8, 110u8, 116u8, 45u8, 76u8, 101u8, 110u8, 103u8, 116u8, 104u8, 58u8, 32u8];
    proof {
        assert(r@ =~= spec_content_headers());
    }
    r
}

/// The bytes of `"{\"Error\":"`.
pub open spec fn spec_jopen_error() -> Seq<u8> {
    seq![123u8, 34u8, 69u8, 114u8, 114u8, 111u8, 114u8, 34u8, 58u8]
}

pub fn jopen_error() -> (r: Vec<u8>)
    ensures
        r@ == spec_jopen_error(),
{
    let r: Vec<u8> = vec![123u8, 34u8, 69u8, 114u8, 114u8, 111u8, 114u8, 34u8, 58u8];
    proof {
        assert(r@ =~= spec_jopen_error());
    }
    r
}

/// The bytes of `"{\"OK\":"`.
pub open spec fn spec_jopen_ok() -> Seq<u8> {
    seq![123u8, 34u8, 79u8, 75u8, 34u8, 58u8]
}

pub fn jopen_ok() -> (r: Vec<u8>)
    ensures
        r@ == spec_jopen_ok(),
{
    let r: Vec<u8> = vec![123u8, 34u8, 79u8, 75u8, 34u8, 58u8];
    proof {
        assert(r@ =~= spec_jopen_ok());
    }
    r
}

/// The bytes of `"{\"User\":"`.
pub open spec fn spec_jopen_user() -> Seq<u8> {
    seq![123u8, 34u8, 85u8, 115u8, 101u8, 114u8, 34u8, 58u8]
}

pub fn jopen_user() -> (r: Vec<u8>)
    ensures
        r@ == spec_jopen_user(),
{
    let r: Vec<u8> = vec![123u8, 34u8, 85u8, 115u8, 101u8, 114u8, 34u8, 58u8];
    proof {
        assert(r@ =~= spec_jopen_user());
    }
    r
}

/// The bytes of `"{\"List\":["`.
pub open spec fn spec_jopen_list() -> Seq<u8> {
    seq![123u8, 34u8, 76u8, 105u8, 115u8, 116u8, 34u8, 58u8, 91u8]
}

pub fn jopen_list() -> (r: Vec<u8>)
    ensures
        r@ == spec_jopen_list(),
{
    let r: Vec<u8> = vec![123u8, 34u8, 76u8, 105u8, 115u8, 116u8, 34u8, 58u8, 91u8];
    proof {
        assert(r@ =~= spec_jopen_list());
    }
    r
}

/// The bytes of `"{\"Log\":["`.
pub open spec fn spec_jopen_log() -> Seq<u8> {
    seq![123u8, 34u8, 76u8, 111u8, 103u8, 34u8, 58u8, 91u8]
}

pub fn jopen_log() -> (r: Vec<u8>)
    ensures
        r@ == spec_jopen_log(),
{
    let r: Vec<u8> = vec![123u8, 34u8, 76u8, 111u8, 103u8, 34u8, 58u8, 91u8];
    proof {
        assert(r@ =~= spec_jopen_log());
    }
    r
}

/// The bytes of `"}"`.
pub open spec fn spec_jclose() -> Seq<u8> {
    seq![125u8]
}

pub fn jclose() -> (r: Vec<u8>)
    ensures
        r@ == spec_jclose(),
{
    let r: Vec<u8> = vec![125u8];
    proof {
        assert(r@ =~= spec_jclose());
    }
    r
}

/// The bytes of `"]}"`.
pub open spec fn spec_jclose_list() -> Seq<u8> {
    seq![93u8, 125u8]
}

pub fn jclose_list() -> (r: Vec<u8>)
    ensures
        r@ == spec_jclose_list(),
{
    let r: Vec<u8> = vec![93u8, 125u8];
    proof {
        assert(r@ =~= spec_jclose_list());
    }
    r
}

/// The bytes of `"{\"username\":"`.
pub open spec fn spec_juser_username() -> Seq<u8> {
    seq![123u8, 34u8, 117u8, 115u8, 101u8, 114u8, 110u8, 97u8, 109u8, 101u8, 34u8, 58u8]
}

pub fn juser_username() -> (r: Vec<u8>)
    ensures
        r@ == spec_juser_username(),
{
    let r: Vec<u8> = vec![123u8, 34u8, 117u8, 115u8, 101u8, 114u8, 110u8, 97u8, 109u8, 101u8, 34u8, 58u8];
    proof {
        assert(r@ =~= spec_juser_username());
    }
    r
}

/// The bytes of `",\"status\":"`.
pub open spec fn spec_juser_status() -> Seq<u8> {
    seq![44u8, 34u8, 115u8, 116u8, 97u8, 116u8, 117u8, 115u8, 34u8, 58u8]
}

pub fn juser_status() -> (r: Vec<u8>)
    ensures
        r@ == spec_juser_status(),
{
    let r: Vec<u8> = vec![44u8, 34u8, 115u8, 116u8, 97u8, 116u8, 117u8, 115u8, 34u8, 58u8];
    proof {
        assert(r@ =~= spec_juser_status());
    }
    r
}

/// The bytes of `"{\"online\":"`.
pub open spec fn spec_jstatus_online() -> Seq<u8> {
    seq![123u8, 34u8, 111u8, 110u8, 108u8, 105u8, 110u8, 101u8, 34u8, 58u8]
}

pub fn jstatus_online() -> (r: Vec<u8>)
    ensures
        r@ == spec_jstatus_online(),
{
    let r: Vec<u8> = vec![123u8, 34u8, 111u8, 110u8, 108u8, 105u8, 110u8, 101u8, 34u8, 58u8];
    proof {
        assert(r@ =~= spec_jstatus_online());
    }
    r
}

/// The bytes of `",\"text\":"`.
pub open spec fn spec_jstatus_text() -> Seq<u8> {
    seq![44u8, 34u8, 116u8, 101u8, 120u8, 116u8, 34u8, 58u8]
}

pub fn jstatus_text() -> (r: Vec<u8>)
    ensures
        r@ == spec_jstatus_text(),
{
    let r: Vec<u8> = vec![44u8, 34u8, 116u8, 101u8, 120u8, 116u8, 34u8, 58u8];
    proof {
        assert(r@ =~= spec_jstatus_text());
    }
    r
}

/// The bytes of `",\"since\":"`.
pub open spec fn spec_jstatus_since() -> Seq<u8> {
    seq![44u8, 34u8, 115u8, 105u8, 110u8, 99u8, 101u8, 34u8, 58u8]
}

pub fn jstatus_since() -> (r: Vec<u8>)
    ensures
        r@ == spec_jstatus_since(),
{
    let r: Vec<u8> = vec![44u8, 34u8, 115u8, 105u8, 110u8, 99u8, 101u8, 34u8, 58u8];
    proof {
        assert(r@ =~= spec_jstatus_since());
    }
    r
}

/// The bytes of `"true"`.
pub open spec fn spec_jtrue() -> Seq<u8> {
    seq![116u8, 114u8, 117u8, 101u8]
}

pub fn jtrue() -> (r: Vec<u8>)
    ensures
        r@ == spec_jtrue(),
{
    let r: Vec<u8> = vec![116u8, 114u8, 117u8, 101u8];
    proof {
        assert(r@ =~= spec_jtrue());
    }
    r
}

/// The bytes of `"false"`.
pub open spec fn spec_jfalse() -> Seq<u8> {
    seq![102u8, 97u8, 108u8, 115u8, 101u8]
}

pub fn jfalse() -> (r: Vec<u8>)
    ensures
        r@ == spec_jfalse(),
{
    let r: Vec<u8> = vec![102u8, 97u8, 108u8, 115u8, 101u8];
    proof {
        assert(r@ =~= spec_jfalse());
    }
    r
}

/// The bytes of `"null"`.
pub open spec fn spec_jnull() -> Seq<u8> {
    seq![110u8, 117u8, 108u8, 108u8]
}

pub fn jnull() -> (r: Vec<u8>)
    ensures
        r@ == spec_jnull(),
{
    let r: Vec<u8> = vec![110u8, 117u8, 108u8, 108u8];
    proof {
        assert(r@ =~= spec_jnull());
    }
    r
}

/// The bytes of `","`.
pub open spec fn spec_jcomma() -> Seq<u8> {
    seq![44u8]
}

pub fn jcomma() -> (r: Vec<u8>)
    ensures
        r@ == spec_jcomma(),
{
    let r: Vec<u8> = vec![44u8];
    proof {
        assert(r@ =~= spec_jcomma());
    }
    r
}

/// The bytes of `"you are now logged on"`.
pub open spec fn spec_msg_logged_on() -> Seq<u8> {
    seq![121u8, 111u8, 117u8, 32u8, 97u8, 114u8, 101u8, 32u8, 110u8, 111u8, 119u8, 32u8, 108u8, 111u8, 103u8, 103u8, 101u8, 100u8, 32u8, 111u8, 110u8]
}

pub fn msg_logged_on() -> (r: Vec<u8>)
    ensures
        r@ == spec_msg_logged_on(),
{
    let r: Vec<u8> = vec![121u8, 111u8, 117u8, 32u8, 97u8, 114u8, 101u8, 32u8, 110u8, 111u8, 119u8, 32u8, 108u8, 111u8, 103u8, 103u8, 101u8, 100u8, 32u8, 111u8, 110u8];
    proof {
        assert(r@ =~= spec_msg_logged_on());
    }
    r
}

/// The bytes of `"you are now logged off"`.
pub open spec fn spec_msg_logged_off() -> Seq<u8> {
    seq![121u8, 111u8, 117u8, 32u8, 97u8, 114u8, 101u8, 32u8, 110u8, 111u8, 119u8, 32u8, 108u8, 111u8, 103u8, 103u8, 101u8, 100u8, 32u8, 111u8, 102u8, 102u8]
}

pub fn msg_logged_off() -> (r: Vec<u8>)
    ensures
        r@ == spec_msg_logged_off(),
{
    let r: Vec<u8> = vec![121u8, 111u8, 117u8, 32u8, 97u8, 114u8, 101u8, 32u8, 110u8, 111u8, 119u8, 32u8, 108u8, 111u8, 103u8, 103u8, 101u8, 100u8, 32u8, 111u8, 102u8, 102u8];
    proof {
        assert(r@ =~= spec_msg_logged_off());
    }
    r
}

/// The bytes of `"user not found"`.
pub open spec fn spec_msg_user_not_found() -> Seq<u8> {
    seq![117u8, 115u8, 101u8, 114u8, 32u8, 110u8, 111u8, 116u8, 32u8, 102u8, 111u8, 117u8, 110u8, 100u8]
}

pub fn msg_user_not_found() -> (r: Vec<u8>)
    ensures
        r@ == spec_msg_user_not_found(),
{
    let r: Vec<u8> = vec![117u8, 115u8, 101u8, 114u8, 32u8, 110u8, 111u8, 116u8, 32u8, 102u8, 111u8, 117u8, 110u8, 100u8];
    proof {
        assert(r@ =~= spec_msg_user_not_found());
    }
    r
}

/// The bytes of `"unknown username"`.
pub open spec fn spec_msg_unknown_username() -> Seq<u8> {
    seq![117u8, 110u8, 107u8, 110u8, 111u8, 119u8, 110u8, 32u8, 117u8, 115u8, 101u8, 114u8, 110u8, 97u8, 109u8, 101u8]
}

pub fn msg_unknown_username() -> (r: Vec<u8>)
    ensures
        r@ == spec_msg_unknown_username(),
{
    let r: Vec<u8> = vec![117u8, 110u8, 107u8, 110u8, 111u8, 119u8, 110u8, 32u8, 117u8, 115u8, 101u8, 114u8, 110u8, 97u8, 109u8, 101u8];
    proof {
        assert(r@ =~= spec_msg_unknown_username());
    }
    r
}

/// The bytes of `"invalid username or key"`.
pub open spec fn spec_msg_invalid_user_or_key() -> Seq<u8> {
    seq![105u8, 110u8, 118u8, 97u8, 108u8, 105u8, 100u8, 32u8, 117u8, 115u8, 101u8, 114u8, 110u8, 97u8, 109u8, 101u8, 32u8, 111u8, 114u8, 32u8, 107u8, 101u8, 121u8]
}

pub fn msg_invalid_user_or_key() -> (r: Vec<u8>)
    ensures
        r@ == spec_msg_invalid_user_or_key(),
{
    let r: Vec<u8> = vec![105u8, 110u8, 118u8, 97u8, 108u8, 105u8, 100u8, 32u8, 117u8, 115u8, 101u8, 114u8, 110u8, 97u8, 109u8, 101u8, 32u8, 111u8, 114u8, 32u8, 107u8, 101u8, 121u8];
    proof {
        assert(r@ =~= spec_msg_invalid_user_or_key());
    }
    r
}

/// The bytes of `"missing key"`.
pub open spec fn spec_msg_missing_key() -> Seq<u8> {
    seq![109u8, 105u8, 115u8, 115u8, 105u8, 110u8, 103u8, 32u8, 107u8, 101u8, 121u8]
}

pub fn msg_missing_key() -> (r: Vec<u8>)
    ensures
        r@ == spec_msg_missing_key(),
{
    let r: Vec<u8> = vec![109u8, 105u8, 115u8, 115u8, 105u8, 110u8, 103u8, 32u8, 107u8, 101u8, 121u8];
    proof {
        assert(r@ =~= spec_msg_missing_key());
    }
    r
}

/// The bytes of `"missing username"`.
pub open spec fn spec_msg_missing_username() -> Seq<u8> {
    seq![109u8, 105u8, 115u8, 115u8, 105u8, 110u8, 103u8, 32u8, 117u8, 115u8, 101u8, 114u8, 110u8, 97u8, 109u8, 101u8]
}

pub fn msg_missing_username() -> (r: Vec<u8>)
    ensures
        r@ == spec_msg_missing_username(),
{
    let r: Vec<u8> = vec![109u8, 105u8, 115u8, 115u8, 105u8, 110u8, 103u8, 32u8, 117u8, 115u8, 101u8, 114u8, 110u8, 97u8, 109u8, 101u8];
    proof {
        assert(r@ =~= spec_msg_missing_username());
    }
    r
}

/// The bytes of `"a user is required"`.
pub open spec fn spec_msg_user_required() -> Seq<u8> {
    seq![97u8, 32u8, 117u8, 115u8, 101u8, 114u8, 32u8, 105u8, 115u8, 32u8, 114u8, 101u8, 113u8, 117u8, 105u8, 114u8, 101u8, 100u8]
}

pub fn msg_user_required() -> (r: Vec<u8>)
    ensures
        r@ == spec_msg_user_required(),
{
    let r: Vec<u8> = vec![97u8, 32u8, 117u8, 115u8, 101u8, 114u8, 32u8, 105u8, 115u8, 32u8, 114u8, 101u8, 113u8, 117u8, 105u8, 114u8, 101u8, 100u8];
    proof {
        assert(r@ =~= spec_msg_user_required());
    }
    r
}

/// The bytes of `"you are bumped"`.
pub open spec fn spec_msg_bumped() -> Seq<u8> {
    seq![121u8, 111u8, 117u8, 32u8, 97u8, 114u8, 101u8, 32u8, 98u8, 117u8, 109u8, 112u8, 101u8, 100u8]
}

pub fn msg_bumped() -> (r: Vec<u8>)
    ensures
        r@ == spec_msg_bumped(),
{
    let r: Vec<u8> = vec![121u8, 111u8, 117u8, 32u8, 97u8, 114u8, 101u8, 32u8, 98u8, 117u8, 109u8, 112u8, 101u8, 100u8];
    proof {
        assert(r@ =~= spec_msg_bumped());
    }
    r
}

/// The bytes of `"your account has been removed"`.
pub open spec fn spec_msg_removed() -> Seq<u8> {
    seq![121u8, 111u8, 117u8, 114u8, 32u8, 97u8, 99u8, 99u8, 111u8, 117u8, 110u8, 116u8, 32u8, 104u8, 97u8, 115u8, 32u8, 98u8, 101u8, 101u8, 110u8, 32u8, 114u8, 101u8, 109u8, 111u8, 118u8, 101u8, 100u8]
}

pub fn msg_removed() -> (r: Vec<u8>)
    ensures
        r@ == spec_msg_removed(),
{
    let r: Vec<u8> = vec![121u8, 111u8, 117u8, 114u8, 32u8, 97u8, 99u8, 99u8, 111u8, 117u8, 110u8, 116u8, 32u8, 104u8, 97u8, 115u8, 32u8, 98u8, 101u8, 101u8, 110u8, 32u8, 114u8, 101u8, 109u8, 111u8, 118u8, 101u8, 100u8];
    proof {
        assert(r@ =~= spec_msg_removed());
    }
    r
}

/// The bytes of `"username already taken"`.
pub open spec fn spec_msg_taken() -> Seq<u8> {
    seq![117u8, 115u8, 101u8, 114u8, 110u8, 97u8, 109u8, 101u8, 32u8, 97u8, 108u8, 114u8, 101u8, 97u8, 100u8, 121u8, 32u8, 116u8, 97u8, 107u8, 101u8, 110u8]
}

pub fn msg_taken() -> (r: Vec<u8>)
    ensures
        r@ == spec_msg_taken(),
{
    let r: Vec<u8> = vec![117u8, 115u8, 101u8, 114u8, 110u8, 97u8, 109u8, 101u8, 32u8, 97u8, 108u8, 114u8, 101u8, 97u8, 100u8, 121u8, 32u8, 116u8, 97u8, 107u8, 101u8, 110u8];
    proof {
        assert(r@ =~= spec_msg_taken());
    }
    r
}

/// The bytes of `"a password is required"`.
pub open spec fn spec_msg_password_required() -> Seq<u8> {
    seq![97u8, 32u8, 112u8, 97u8, 115u8, 115u8, 119u8, 111u8, 114u8, 100u8, 32u8, 105u8, 115u8, 32u8, 114u8, 101u8, 113u8, 117u8, 105u8, 114u8, 101u8, 100u8]
}

pub fn msg_password_required() -> (r: Vec<u8>)
    ensures
        r@ == spec_msg_password_required(),
{
    let r: Vec<u8> = vec![97u8, 32u8, 112u8, 97u8, 115u8, 115u8, 119u8, 111u8, 114u8, 100u8, 32u8, 105u8, 115u8, 32u8, 114u8, 101u8, 113u8, 117u8, 105u8, 114u8, 101u8, 100u8];
    proof {
        assert(r@ =~= spec_msg_password_required());
    }
    r
}

/// The bytes of `"registration is not allowed on this server"`.
pub open spec fn spec_msg_no_registration() -> Seq<u8> {
    seq![114u8, 101u8, 103u8, 105u8, 115u8, 116u8, 114u8, 97u8, 116u8, 105u8, 111u8, 110u8, 32u8, 105u8, 115u8, 32u8, 110u8, 111u8, 116u8, 32u8, 97u8, 108u8, 108u8, 111u8, 119u8, 101u8, 100u8, 32u8, 111u8, 110u8, 32u8, 116u8, 104u8, 105u8, 115u8, 32u8, 115u8, 101u8, 114u8, 118u8, 101u8, 114u8]
}

pub fn msg_no_registration() -> (r: Vec<u8>)
    ensures
        r@ == spec_msg_no_registration(),
{
    let r: Vec<u8> = vec![114u8, 101u8, 103u8, 105u8, 115u8, 116u8, 114u8, 97u8, 116u8, 105u8, 111u8, 110u8, 32u8, 105u8, 115u8, 32u8, 110u8, 111u8, 116u8, 32u8, 97u8, 108u8, 108u8, 111u8, 119u8, 101u8, 100u8, 32u8, 111u8, 110u8, 32u8, 116u8, 104u8, 105u8, 115u8, 32u8, 115u8, 101u8, 114u8, 118u8, 101u8, 114u8];
    proof {
        assert(r@ =~= spec_msg_no_registration());
    }
    r
}

/// The bytes of `"incorrect registration key"`.
pub open spec fn spec_msg_bad_reg_key() -> Seq<u8> {
    seq![105u8, 110u8, 99u8, 111u8, 114u8, 114u8, 101u8, 99u8, 116u8, 32u8, 114u8, 101u8, 103u8, 105u8, 115u8, 116u8, 114u8, 97u8, 116u8, 105u8, 111u8, 110u8, 32u8, 107u8, 101u8, 121u8]
}

pub fn msg_bad_reg_key() -> (r: Vec<u8>)
    ensures
        r@ == spec_msg_bad_reg_key(),
{
    let r: Vec<u8> = vec![105u8, 110u8, 99u8, 111u8, 114u8, 114u8, 101u8, 99u8, 116u8, 32u8, 114u8, 101u8, 103u8, 105u8, 115u8, 116u8, 114u8, 97u8, 116u8, 105u8, 111u8, 110u8, 32u8, 107u8, 101u8, 121u8];
    proof {
        assert(r@ =~= spec_msg_bad_reg_key());
    }
    r
}

/// The bytes of `"a username is required to register"`.
pub open spec fn spec_msg_username_required_reg() -> Seq<u8> {
    seq![97u8, 32u8, 117u8, 115u8, 101u8, 114u8, 110u8, 97u8, 109u8, 101u8, 32u8, 105u8, 115u8, 32u8, 114u8, 101u8, 113u8, 117u8, 105u8, 114u8, 101u8, 100u8, 32u8, 116u8, 111u8, 32u8, 114u8, 101u8, 103u8, 105u8, 115u8, 116u8, 101u8, 114u8]
}

pub fn msg_username_required_reg() -> (r: Vec<u8>)
    ensures
        r@ == spec_msg_username_required_reg(),
{
    let r: Vec<u8> = vec![97u8, 32u8, 117u8, 115u8, 101u8, 114u8, 110u8, 97u8, 109u8, 101u8, 32u8, 105u8, 115u8, 32u8, 114u8, 101u8, 113u8, 117u8, 105u8, 114u8, 101u8, 100u8, 32u8, 116u8, 111u8, 32u8, 114u8, 101u8, 103u8, 105u8, 115u8, 116u8, 101u8, 114u8];
    proof {
        assert(r@ =~= spec_msg_username_required_reg());
    }
    r
}

/// The bytes of `"registered"`.
pub open spec fn spec_msg_registered() -> Seq<u8> {
    seq![114u8, 101u8, 103u8, 105u8, 115u8, 116u8, 101u8, 114u8, 101u8, 100u8]
}

pub fn msg_registered() -> (r: Vec<u8>)
    ensures
        r@ == spec_msg_registered(),
{
    let r: Vec<u8> = vec![114u8, 101u8, 103u8, 105u8, 115u8, 116u8, 101u8, 114u8, 101u8, 100u8];
    proof {
        assert(r@ =~= spec_msg_registered());
    }
    r
}

/// The bytes of `"anonymous"`.
pub open spec fn spec_anonymous_name() -> Seq<u8> {
    seq![97u8, 110u8, 111u8, 110u8, 121u8, 109u8, 111u8, 117u8, 115u8]
}

pub fn anonymous_name() -> (r: Vec<u8>)
    ensures
        r@ == spec_anonymous_name(),
{
    let r: Vec<u8> = vec![97u8, 110u8, 111u8, 110u8, 121u8, 109u8, 111u8, 117u8, 115u8];
    proof {
        assert(r@ =~= spec_anonymous_name());
    }
    r
}

/// The bytes of `"invalid request type"`.
pub open spec fn spec_err_bad_method() -> Seq<u8> {
    seq![105u8, 110u8, 118u8, 97u8, 108u8, 105u8, 100u8, 32u8, 114u8, 101u8, 113u8, 117u8, 101u8, 115u8, 116u8, 32u8, 116u8, 121u8, 112u8, 101u8]
}

pub fn err_bad_method() -> (r: Vec<u8>)
    ensures
        r@ == spec_err_bad_method(),
{
    let r: Vec<u8> = vec![105u8, 110u8, 118u8, 97u8, 108u8, 105u8, 100u8, 32u8, 114u8, 101u8, 113u8, 117u8, 101u8, 115u8, 116u8, 32u8, 116u8, 121u8, 112u8, 101u8];
    proof {
        assert(r@ =~= spec_err_bad_method());
    }
    r
}

/// The bytes of `"missing path"`.
pub open spec fn spec_err_missing_path() -> Seq<u8> {
    seq![109u8, 105u8, 115u8, 115u8, 105u8, 110u8, 103u8, 32u8, 112u8, 97u8, 116u8, 104u8]
}

pub fn err_missing_path() -> (r: Vec<u8>)
    ensures
        r@ == spec_err_missing_path(),
{
    let r: Vec<u8> = vec![109u8, 105u8, 115u8, 115u8, 105u8, 110u8, 103u8, 32u8, 112u8, 97u8, 116u8, 104u8];
    proof {
        assert(r@ =~= spec_err_missing_path());
    }
    r
}

/// The bytes of `"invalid path"`.
pub open spec fn spec_err_bad_path() -> Seq<u8> {
    seq![105u8, 110u8, 118u8, 97u8, 108u8, 105u8, 100u8, 32u8, 112u8, 97u8, 116u8, 104u8]
}

pub fn err_bad_path() -> (r: Vec<u8>)
    ensures
        r@ == spec_err_bad_path(),
{
    let r: Vec<u8> = vec![105u8, 110u8, 118u8, 97u8, 108u8, 105u8, 100u8, 32u8, 112u8, 97u8, 116u8, 104u8];
    proof {
        assert(r@ =~= spec_err_bad_path());
    }
    r
}

/// The bytes of `"unrecognized action"`.
pub open spec fn spec_err_unknown_action() -> Seq<u8> {
    seq![117u8, 110u8, 114u8, 101u8, 99u8, 111u8, 103u8, 110u8, 105u8, 122u8, 101u8, 100u8, 32u8, 97u8, 99u8, 116u8, 105u8, 111u8, 110u8]
}

pub fn err_unknown_action() -> (r: Vec<u8>)
    ensures
        r@ == spec_err_unknown_action(),
{
    let r: Vec<u8> = vec![117u8, 110u8, 114u8, 101u8, 99u8, 111u8, 103u8, 110u8, 105u8, 122u8, 101u8, 100u8, 32u8, 97u8, 99u8, 116u8, 105u8, 111u8, 110u8];
    proof {
        assert(r@ =~= spec_err_unknown_action());
    }
    r
}

/// The bytes of `"invalid header"`.
pub open spec fn spec_err_bad_header() -> Seq<u8> {
    seq![105u8, 110u8, 118u8, 97u8, 108u8, 105u8, 100u8, 32u8, 104u8, 101u8, 97u8, 100u8, 101u8, 114u8]
}

pub fn err_bad_header() -> (r: Vec<u8>)
    ensures
        r@ == spec_err_bad_header(),
{
    let r: Vec<u8> = vec![105u8, 110u8, 118u8, 97u8, 108u8, 105u8, 100u8, 32u8, 104u8, 101u8, 97u8, 100u8, 101u8, 114u8];
    proof {
        assert(r@ =~= spec_err_bad_header());
    }
    r
}

/// The bytes of `"invalid query pair"`.
pub open spec fn spec_err_bad_query() -> Seq<u8> {
    seq![105u8, 110u8, 118u8, 97u8, 108u8, 105u8, 100u8, 32u8, 113u8, 117u8, 101u8, 114u8, 121u8, 32u8, 112u8, 97u8, 105u8, 114u8]
}

pub fn err_bad_query() -> (r: Vec<u8>)
    ensures
        r@ == spec_err_bad_query(),
{
    let r: Vec<u8> = vec![105u8, 110u8, 118u8, 97u8, 108u8, 105u8, 100u8, 32u8, 113u8, 117u8, 101u8, 114u8, 121u8, 32u8, 112u8, 97u8, 105u8, 114u8];
    proof {
        assert(r@ =~= spec_err_bad_query());
    }
    r
}

/// The bytes of `" path cannot be relative!"`.
pub open spec fn spec_rel_suffix() -> Seq<u8> {
    seq![32u8, 112u8, 97u8, 116u8, 104u8, 32u8, 99u8, 97u8, 110u8, 110u8, 111u8, 116u8, 32u8, 98u8, 101u8, 32u8, 114u8, 101u8, 108u8, 97u8, 116u8, 105u8, 118u8, 101u8, 33u8]
}

pub fn rel_suffix() -> (r: Vec<u8>)
    ensures
        r@ == spec_rel_suffix(),
{
    let r: Vec<u8> = vec![32u8, 112u8, 97u8, 116u8, 104u8, 32u8, 99u8, 97u8, 110u8, 110u8, 111u8, 116u8, 32u8, 98u8, 101u8, 32u8, 114u8, 101u8, 108u8, 97u8, 116u8, 105u8, 118u8, 101u8, 33u8];
    proof {
        assert(r@ =~= spec_rel_suffix());
    }
    r
}

/// The bytes of `"failed to remove user"`.
pub open spec fn spec_msg_remove_failed() -> Seq<u8> {
    seq![102u8, 97u8, 105u8, 108u8, 101u8, 100u8, 32u8, 116u8, 111u8, 32u8, 114u8, 101u8, 109u8, 111u8, 118u8, 101u8, 32u8, 117u8, 115u8, 101u8, 114u8]
}

pub fn msg_remove_failed() -> (r: Vec<u8>)
    ensures
        r@ == spec_msg_remove_failed(),
{
    let r: Vec<u8> = vec![102u8, 97u8, 105u8, 108u8, 101u8, 100u8, 32u8, 116u8, 111u8, 32u8, 114u8, 101u8, 109u8, 111u8, 118u8, 101u8, 32u8, 117u8, 115u8, 101u8, 114u8];
    proof {
        assert(r@ =~= spec_msg_remove_failed());
    }
    r
}

} // verus!