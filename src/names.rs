//! Algorithm, method and service names used on the wire, as ASCII bytes.

use vstd::prelude::*;

verus! {

/// `ssh-ed25519`
pub open spec fn spec_ed25519() -> Seq<u8> {
    seq![115, 115, 104, 45, 101, 100, 50, 53, 53, 49, 57]
}

/// `ssh-ed25519`
pub fn name_ed25519() -> (r: Vec<u8>)
    ensures
        r@ == spec_ed25519(),
{
    let r: Vec<u8> = vec![115u8, 115u8, 104u8, 45u8, 101u8, 100u8, 50u8, 53u8, 53u8, 49u8, 57u8];
    assert(r@ =~= spec_ed25519());
    r
}

/// `rsa-sha2-256`
pub open spec fn spec_rsa_sha256() -> Seq<u8> {
    seq![114, 115, 97, 45, 115, 104, 97, 50, 45, 50, 53, 54]
}

/// `rsa-sha2-256`
pub fn name_rsa_sha256() -> (r: Vec<u8>)
    ensures
        r@ == spec_rsa_sha256(),
{
    let r: Vec<u8> = vec![114u8, 115u8, 97u8, 45u8, 115u8, 104u8, 97u8, 50u8, 45u8, 50u8, 53u8, 54u8];
    assert(r@ =~= spec_rsa_sha256());
    r
}

/// `ssh-rsa`
pub open spec fn spec_rsa() -> Seq<u8> {
    seq![115, 115, 104, 45, 114, 115, 97]
}

/// `ssh-rsa`
pub fn name_rsa() -> (r: Vec<u8>)
    ensures
        r@ == spec_rsa(),
{
    let r: Vec<u8> = vec![115u8, 115u8, 104u8, 45u8, 114u8, 115u8, 97u8];
    assert(r@ =~= spec_rsa());
    r
}

/// `curve25519-sha256`
pub open spec fn spec_curve25519() -> Seq<u8> {
    seq![99, 117, 114, 118, 101, 50, 53, 53, 49, 57, 45, 115, 104, 97, 50, 53, 54]
}

/// `curve25519-sha256`
pub fn name_curve25519() -> (r: Vec<u8>)
    ensures
        r@ == spec_curve25519(),
{
    let r: Vec<u8> = vec![99u8, 117u8, 114u8, 118u8, 101u8, 50u8, 53u8, 53u8, 49u8, 57u8, 45u8, 115u8, 104u8, 97u8, 50u8, 53u8, 54u8];
    assert(r@ =~= spec_curve25519());
    r
}

/// `curve25519-sha256@libssh.org`
pub open spec fn spec_curve25519_libssh() -> Seq<u8> {
    seq![99, 117, 114, 118, 101, 50, 53, 53, 49, 57, 45, 115, 104, 97, 50, 53, 54, 64, 108, 105, 98, 115, 115, 104, 46, 111, 114, 103]
}

/// `curve25519-sha256@libssh.org`
pub fn name_curve25519_libssh() -> (r: Vec<u8>)
    ensures
        r@ == spec_curve25519_libssh(),
{
    let r: Vec<u8> = vec![99u8, 117u8, 114u8, 118u8, 101u8, 50u8, 53u8, 53u8, 49u8, 57u8, 45u8, 115u8, 104u8, 97u8, 50u8, 53u8, 54u8, 64u8, 108u8, 105u8, 98u8, 115u8, 115u8, 104u8, 46u8, 111u8, 114u8, 103u8];
    assert(r@ =~= spec_curve25519_libssh());
    r
}

/// `ext-info-c`
pub open spec fn spec_ext_info_c() -> Seq<u8> {
    seq![101, 120, 116, 45, 105, 110, 102, 111, 45, 99]
}

/// `ext-info-c`
pub fn name_ext_info_c() -> (r: Vec<u8>)
    ensures
        r@ == spec_ext_info_c(),
{
    let r: Vec<u8> = vec![101u8, 120u8, 116u8, 45u8, 105u8, 110u8, 102u8, 111u8, 45u8, 99u8];
    assert(r@ =~= spec_ext_info_c());
    r
}

/// `ext-info-s`
pub open spec fn spec_ext_info_s() -> Seq<u8> {
    seq![101, 120, 116, 45, 105, 110, 102, 111, 45, 115]
}

/// `ext-info-s`
pub fn name_ext_info_s() -> (r: Vec<u8>)
    ensures
        r@ == spec_ext_info_s(),
{
    let r: Vec<u8> = vec![101u8, 120u8, 116u8, 45u8, 105u8, 110u8, 102u8, 111u8, 45u8, 115u8];
    assert(r@ =~= spec_ext_info_s());
    r
}

/// `kexguess2@matt.ucc.asn.au`
pub open spec fn spec_kexguess2() -> Seq<u8> {
    seq![107, 101, 120, 103, 117, 101, 115, 115, 50, 64, 109, 97, 116, 116, 46, 117, 99, 99, 46, 97, 115, 110, 46, 97, 117]
}

/// `kexguess2@matt.ucc.asn.au`
pub fn name_kexguess2() -> (r: Vec<u8>)
    ensures
        r@ == spec_kexguess2(),
{
    let r: Vec<u8> = vec![107u8, 101u8, 120u8, 103u8, 117u8, 101u8, 115u8, 115u8, 50u8, 64u8, 109u8, 97u8, 116u8, 116u8, 46u8, 117u8, 99u8, 99u8, 46u8, 97u8, 115u8, 110u8, 46u8, 97u8, 117u8];
    assert(r@ =~= spec_kexguess2());
    r
}

/// `chacha20-poly1305@openssh.com`
pub open spec fn spec_chapoly() -> Seq<u8> {
    seq![99, 104, 97, 99, 104, 97, 50, 48, 45, 112, 111, 108, 121, 49, 51, 48, 53, 64, 111, 112, 101, 110, 115, 115, 104, 46, 99, 111, 109]
}

/// `chacha20-poly1305@openssh.com`
pub fn name_chapoly() -> (r: Vec<u8>)
    ensures
        r@ == spec_chapoly(),
{
    let r: Vec<u8> = vec![99u8, 104u8, 97u8, 99u8, 104u8, 97u8, 50u8, 48u8, 45u8, 112u8, 111u8, 108u8, 121u8, 49u8, 51u8, 48u8, 53u8, 64u8, 111u8, 112u8, 101u8, 110u8, 115u8, 115u8, 104u8, 46u8, 99u8, 111u8, 109u8];
    assert(r@ =~= spec_chapoly());
    r
}

/// `aes256-ctr`
pub open spec fn spec_aes256_ctr() -> Seq<u8> {
    seq![97, 101, 115, 50, 53, 54, 45, 99, 116, 114]
}

/// `aes256-ctr`
pub fn name_aes256_ctr() -> (r: Vec<u8>)
    ensures
        r@ == spec_aes256_ctr(),
{
    let r: Vec<u8> = vec![97u8, 101u8, 115u8, 50u8, 53u8, 54u8, 45u8, 99u8, 116u8, 114u8];
    assert(r@ =~= spec_aes256_ctr());
    r
}

/// `hmac-sha2-256`
pub open spec fn spec_hmac_sha256() -> Seq<u8> {
    seq![104, 109, 97, 99, 45, 115, 104, 97, 50, 45, 50, 53, 54]
}

/// `hmac-sha2-256`
pub fn name_hmac_sha256() -> (r: Vec<u8>)
    ensures
        r@ == spec_hmac_sha256(),
{
    let r: Vec<u8> = vec![104u8, 109u8, 97u8, 99u8, 45u8, 115u8, 104u8, 97u8, 50u8, 45u8, 50u8, 53u8, 54u8];
    assert(r@ =~= spec_hmac_sha256());
    r
}

/// `none`
pub open spec fn spec_none() -> Seq<u8> {
    seq![110, 111, 110, 101]
}

/// `none`
pub fn name_none() -> (r: Vec<u8>)
    ensures
        r@ == spec_none(),
{
    let r: Vec<u8> = vec![110u8, 111u8, 110u8, 101u8];
    assert(r@ =~= spec_none());
    r
}

/// `password`
pub open spec fn spec_password() -> Seq<u8> {
    seq![112, 97, 115, 115, 119, 111, 114, 100]
}

/// `password`
pub fn name_password() -> (r: Vec<u8>)
    ensures
        r@ == spec_password(),
{
    let r: Vec<u8> = vec![112u8, 97u8, 115u8, 115u8, 119u8, 111u8, 114u8, 100u8];
    assert(r@ =~= spec_password());
    r
}

/// `publickey`
pub open spec fn spec_publickey() -> Seq<u8> {
    seq![112, 117, 98, 108, 105, 99, 107, 101, 121]
}

/// `publickey`
pub fn name_publickey() -> (r: Vec<u8>)
    ensures
        r@ == spec_publickey(),
{
    let r: Vec<u8> = vec![112u8, 117u8, 98u8, 108u8, 105u8, 99u8, 107u8, 101u8, 121u8];
    assert(r@ =~= spec_publickey());
    r
}

/// `ssh-userauth`
pub open spec fn spec_service_userauth() -> Seq<u8> {
    seq![115, 115, 104, 45, 117, 115, 101, 114, 97, 117, 116, 104]
}

/// `ssh-userauth`
pub fn name_service_userauth() -> (r: Vec<u8>)
    ensures
        r@ == spec_service_userauth(),
{
    let r: Vec<u8> = vec![115u8, 115u8, 104u8, 45u8, 117u8, 115u8, 101u8, 114u8, 97u8, 117u8, 116u8, 104u8];
    assert(r@ =~= spec_service_userauth());
    r
}

/// `ssh-connection`
pub open spec fn spec_service_connection() -> Seq<u8> {
    seq![115, 115, 104, 45, 99, 111, 110, 110, 101, 99, 116, 105, 111, 110]
}

/// `ssh-connection`
pub fn name_service_connection() -> (r: Vec<u8>)
    ensures
        r@ == spec_service_connection(),
{
    let r: Vec<u8> = vec![115u8, 115u8, 104u8, 45u8, 99u8, 111u8, 110u8, 110u8, 101u8, 99u8, 116u8, 105u8, 111u8, 110u8];
    assert(r@ =~= spec_service_connection());
    r
}

/// `session`
pub open spec fn spec_session() -> Seq<u8> {
    seq![115, 101, 115, 115, 105, 111, 110]
}

/// `session`
pub fn name_session() -> (r: Vec<u8>)
    ensures
        r@ == spec_session(),
{
    let r: Vec<u8> = vec![115u8, 101u8, 115u8, 115u8, 105u8, 111u8, 110u8];
    assert(r@ =~= spec_session());
    r
}

/// `forwarded-tcpip`
pub open spec fn spec_forwarded_tcpip() -> Seq<u8> {
    seq![102, 111, 114, 119, 97, 114, 100, 101, 100, 45, 116, 99, 112, 105, 112]
}

/// `forwarded-tcpip`
pub fn name_forwarded_tcpip() -> (r: Vec<u8>)
    ensures
        r@ == spec_forwarded_tcpip(),
{
    let r: Vec<u8> = vec![102u8, 111u8, 114u8, 119u8, 97u8, 114u8, 100u8, 101u8, 100u8, 45u8, 116u8, 99u8, 112u8, 105u8, 112u8];
    assert(r@ =~= spec_forwarded_tcpip());
    r
}

/// `direct-tcpip`
pub open spec fn spec_direct_tcpip() -> Seq<u8> {
    seq![100, 105, 114, 101, 99, 116, 45, 116, 99, 112, 105, 112]
}

/// `direct-tcpip`
pub fn name_direct_tcpip() -> (r: Vec<u8>)
    ensures
        r@ == spec_direct_tcpip(),
{
    let r: Vec<u8> = vec![100u8, 105u8, 114u8, 101u8, 99u8, 116u8, 45u8, 116u8, 99u8, 112u8, 105u8, 112u8];
    assert(r@ =~= spec_direct_tcpip());
    r
}

/// `shell`
pub open spec fn spec_shell() -> Seq<u8> {
    seq![115, 104, 101, 108, 108]
}

/// `shell`
pub fn name_shell() -> (r: Vec<u8>)
    ensures
        r@ == spec_shell(),
{
    let r: Vec<u8> = vec![115u8, 104u8, 101u8, 108u8, 108u8];
    assert(r@ =~= spec_shell());
    r
}

/// `exec`
pub open spec fn spec_exec() -> Seq<u8> {
    seq![101, 120, 101, 99]
}

/// `exec`
pub fn name_exec() -> (r: Vec<u8>)
    ensures
        r@ == spec_exec(),
{
    let r: Vec<u8> = vec![101u8, 120u8, 101u8, 99u8];
    assert(r@ =~= spec_exec());
    r
}

/// `pty-req`
pub open spec fn spec_pty_req() -> Seq<u8> {
    seq![112, 116, 121, 45, 114, 101, 113]
}

/// `pty-req`
pub fn name_pty_req() -> (r: Vec<u8>)
    ensures
        r@ == spec_pty_req(),
{
    let r: Vec<u8> = vec![112u8, 116u8, 121u8, 45u8, 114u8, 101u8, 113u8];
    assert(r@ =~= spec_pty_req());
    r
}

/// `subsystem`
pub open spec fn spec_subsystem() -> Seq<u8> {
    seq![115, 117, 98, 115, 121, 115, 116, 101, 109]
}

/// `subsystem`
pub fn name_subsystem() -> (r: Vec<u8>)
    ensures
        r@ == spec_subsystem(),
{
    let r: Vec<u8> = vec![115u8, 117u8, 98u8, 115u8, 121u8, 115u8, 116u8, 101u8, 109u8];
    assert(r@ =~= spec_subsystem());
    r
}

/// `window-change`
pub open spec fn spec_window_change() -> Seq<u8> {
    seq![119, 105, 110, 100, 111, 119, 45, 99, 104, 97, 110, 103, 101]
}

/// `window-change`
pub fn name_window_change() -> (r: Vec<u8>)
    ensures
        r@ == spec_window_change(),
{
    let r: Vec<u8> = vec![119u8, 105u8, 110u8, 100u8, 111u8, 119u8, 45u8, 99u8, 104u8, 97u8, 110u8, 103u8, 101u8];
    assert(r@ =~= spec_window_change());
    r
}

/// `signal`
pub open spec fn spec_signal() -> Seq<u8> {
    seq![115, 105, 103, 110, 97, 108]
}

/// `signal`
pub fn name_signal() -> (r: Vec<u8>)
    ensures
        r@ == spec_signal(),
{
    let r: Vec<u8> = vec![115u8, 105u8, 103u8, 110u8, 97u8, 108u8];
    assert(r@ =~= spec_signal());
    r
}

/// `exit-status`
pub open spec fn spec_exit_status() -> Seq<u8> {
    seq![101, 120, 105, 116, 45, 115, 116, 97, 116, 117, 115]
}

/// `exit-status`
pub fn name_exit_status() -> (r: Vec<u8>)
    ensures
        r@ == spec_exit_status(),
{
    let r: Vec<u8> = vec![101u8, 120u8, 105u8, 116u8, 45u8, 115u8, 116u8, 97u8, 116u8, 117u8, 115u8];
    assert(r@ =~= spec_exit_status());
    r
}

/// `exit-signal`
pub open spec fn spec_exit_signal() -> Seq<u8> {
    seq![101, 120, 105, 116, 45, 115, 105, 103, 110, 97, 108]
}

/// `exit-signal`
pub fn name_exit_signal() -> (r: Vec<u8>)
    ensures
        r@ == spec_exit_signal(),
{
    let r: Vec<u8> = vec![101u8, 120u8, 105u8, 116u8, 45u8, 115u8, 105u8, 103u8, 110u8, 97u8, 108u8];
    assert(r@ =~= spec_exit_signal());
    r
}

/// `break`
pub open spec fn spec_break() -> Seq<u8> {
    seq![98, 114, 101, 97, 107]
}

/// `break`
pub fn name_break() -> (r: Vec<u8>)
    ensures
        r@ == spec_break(),
{
    let r: Vec<u8> = vec![98u8, 114u8, 101u8, 97u8, 107u8];
    assert(r@ =~= spec_break());
    r
}

} // verus!
