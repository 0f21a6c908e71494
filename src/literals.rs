//! Fixed ASCII texts of the command lines, URLs and routes, each as a spec
//! value and as bytes.
use vstd::prelude::*;

verus! {

/// `--remote-debugging-address=`
pub open spec fn address_flag() -> Seq<u8> {
    seq![45u8, 45u8, 114u8, 101u8, 109u8, 111u8, 116u8, 101u8, 45u8, 100u8, 101u8, 98u8, 117u8, 103u8, 103u8, 105u8, 110u8, 103u8, 45u8, 97u8, 100u8, 100u8, 114u8, 101u8, 115u8, 115u8, 61u8]
}

/// The bytes of `--remote-debugging-address=`.
pub fn address_flag_bytes() -> (r: Vec<u8>)
    ensures
        r@ == address_flag(),
{
    let r: Vec<u8> = vec![45u8, 45u8, 114u8, 101u8, 109u8, 111u8, 116u8, 101u8, 45u8, 100u8, 101u8, 98u8, 117u8, 103u8, 103u8, 105u8, 110u8, 103u8, 45u8, 97u8, 100u8, 100u8, 114u8, 101u8, 115u8, 115u8, 61u8];
    assert(r@ =~= address_flag());
    r
}

/// `--remote-debugging-port=`
pub open spec fn port_flag() -> Seq<u8> {
    seq![45u8, 45u8, 114u8, 101u8, 109u8, 111u8, 116u8, 101u8, 45u8, 100u8, 101u8, 98u8, 117u8, 103u8, 103u8, 105u8, 110u8, 103u8, 45u8, 112u8, 111u8, 114u8, 116u8, 61u8]
}

/// The bytes of `--remote-debugging-port=`.
pub fn port_flag_bytes() -> (r: Vec<u8>)
    ensures
        r@ == port_flag(),
{
    let r: Vec<u8> = vec![45u8, 45u8, 114u8, 101u8, 109u8, 111u8, 116u8, 101u8, 45u8, 100u8, 101u8, 98u8, 117u8, 103u8, 103u8, 105u8, 110u8, 103u8, 45u8, 112u8, 111u8, 114u8, 116u8, 61u8];
    assert(r@ =~= port_flag());
    r
}

/// `--port`
pub open spec fn port_switch() -> Seq<u8> {
    seq![45u8, 45u8, 112u8, 111u8, 114u8, 116u8]
}

/// The bytes of `--port`.
pub fn port_switch_bytes() -> (r: Vec<u8>)
    ensures
        r@ == port_switch(),
{
    let r: Vec<u8> = vec![45u8, 45u8, 112u8, 111u8, 114u8, 116u8];
    assert(r@ =~= port_switch());
    r
}

/// `--host`
pub open spec fn host_switch() -> Seq<u8> {
    seq![45u8, 45u8, 104u8, 111u8, 115u8, 116u8]
}

/// The bytes of `--host`.
pub fn host_switch_bytes() -> (r: Vec<u8>)
    ensures
        r@ == host_switch(),
{
    let r: Vec<u8> = vec![45u8, 45u8, 104u8, 111u8, 115u8, 116u8];
    assert(r@ =~= host_switch());
    r
}

/// `--port=`
pub open spec fn port_prefix() -> Seq<u8> {
    seq![45u8, 45u8, 112u8, 111u8, 114u8, 116u8, 61u8]
}

/// The bytes of `--port=`.
pub fn port_prefix_bytes() -> (r: Vec<u8>)
    ensures
        r@ == port_prefix(),
{
    let r: Vec<u8> = vec![45u8, 45u8, 112u8, 111u8, 114u8, 116u8, 61u8];
    assert(r@ =~= port_prefix());
    r
}

/// `--host=`
pub open spec fn host_prefix() -> Seq<u8> {
    seq![45u8, 45u8, 104u8, 111u8, 115u8, 116u8, 61u8]
}

/// The bytes of `--host=`.
pub fn host_prefix_bytes() -> (r: Vec<u8>)
    ensures
        r@ == host_prefix(),
{
    let r: Vec<u8> = vec![45u8, 45u8, 104u8, 111u8, 115u8, 116u8, 61u8];
    assert(r@ =~= host_prefix());
    r
}

/// `lightpanda-aarch64-macos`
pub open spec fn lightpanda_macos() -> Seq<u8> {
    seq![108u8, 105u8, 103u8, 104u8, 116u8, 112u8, 97u8, 110u8, 100u8, 97u8, 45u8, 97u8, 97u8, 114u8, 99u8, 104u8, 54u8, 52u8, 45u8, 109u8, 97u8, 99u8, 111u8, 115u8]
}

/// The bytes of `lightpanda-aarch64-macos`.
pub fn lightpanda_macos_bytes() -> (r: Vec<u8>)
    ensures
        r@ == lightpanda_macos(),
{
    let r: Vec<u8> = vec![108u8, 105u8, 103u8, 104u8, 116u8, 112u8, 97u8, 110u8, 100u8, 97u8, 45u8, 97u8, 97u8, 114u8, 99u8, 104u8, 54u8, 52u8, 45u8, 109u8, 97u8, 99u8, 111u8, 115u8];
    assert(r@ =~= lightpanda_macos());
    r
}

/// `lightpanda-x86_64-linux`
pub open spec fn lightpanda_linux() -> Seq<u8> {
    seq![108u8, 105u8, 103u8, 104u8, 116u8, 112u8, 97u8, 110u8, 100u8, 97u8, 45u8, 120u8, 56u8, 54u8, 95u8, 54u8, 52u8, 45u8, 108u8, 105u8, 110u8, 117u8, 120u8]
}

/// The bytes of `lightpanda-x86_64-linux`.
pub fn lightpanda_linux_bytes() -> (r: Vec<u8>)
    ensures
        r@ == lightpanda_linux(),
{
    let r: Vec<u8> = vec![108u8, 105u8, 103u8, 104u8, 116u8, 112u8, 97u8, 110u8, 100u8, 97u8, 45u8, 120u8, 56u8, 54u8, 95u8, 54u8, 52u8, 45u8, 108u8, 105u8, 110u8, 117u8, 120u8];
    assert(r@ =~= lightpanda_linux());
    r
}

/// `http://127.0.0.1:`
pub open spec fn url_head() -> Seq<u8> {
    seq![104u8, 116u8, 116u8, 112u8, 58u8, 47u8, 47u8, 49u8, 50u8, 55u8, 46u8, 48u8, 46u8, 48u8, 46u8, 49u8, 58u8]
}

/// The bytes of `http://127.0.0.1:`.
pub fn url_head_bytes() -> (r: Vec<u8>)
    ensures
        r@ == url_head(),
{
    let r: Vec<u8> = vec![104u8, 116u8, 116u8, 112u8, 58u8, 47u8, 47u8, 49u8, 50u8, 55u8, 46u8, 48u8, 46u8, 48u8, 46u8, 49u8, 58u8];
    assert(r@ =~= url_head());
    r
}

/// `/json/version`
pub open spec fn version_path() -> Seq<u8> {
    seq![47u8, 106u8, 115u8, 111u8, 110u8, 47u8, 118u8, 101u8, 114u8, 115u8, 105u8, 111u8, 110u8]
}

/// The bytes of `/json/version`.
pub fn version_path_bytes() -> (r: Vec<u8>)
    ensures
        r@ == version_path(),
{
    let r: Vec<u8> = vec![47u8, 106u8, 115u8, 111u8, 110u8, 47u8, 118u8, 101u8, 114u8, 115u8, 105u8, 111u8, 110u8];
    assert(r@ =~= version_path());
    r
}

/// `init`
pub open spec fn init_word() -> Seq<u8> {
    seq![105u8, 110u8, 105u8, 116u8]
}

/// The bytes of `init`.
pub fn init_word_bytes() -> (r: Vec<u8>)
    ensures
        r@ == init_word(),
{
    let r: Vec<u8> = vec![105u8, 110u8, 105u8, 116u8];
    assert(r@ =~= init_word());
    r
}

/// `true`
pub open spec fn true_word() -> Seq<u8> {
    seq![116u8, 114u8, 117u8, 101u8]
}

/// The bytes of `true`.
pub fn true_word_bytes() -> (r: Vec<u8>)
    ensures
        r@ == true_word(),
{
    let r: Vec<u8> = vec![116u8, 114u8, 117u8, 101u8];
    assert(r@ =~= true_word());
    r
}

/// `/fork`
pub open spec fn fork_path() -> Seq<u8> {
    seq![47u8, 102u8, 111u8, 114u8, 107u8]
}

/// The bytes of `/fork`.
pub fn fork_path_bytes() -> (r: Vec<u8>)
    ensures
        r@ == fork_path(),
{
    let r: Vec<u8> = vec![47u8, 102u8, 111u8, 114u8, 107u8];
    assert(r@ =~= fork_path());
    r
}

/// `/shutdown`
pub open spec fn shutdown_path() -> Seq<u8> {
    seq![47u8, 115u8, 104u8, 117u8, 116u8, 100u8, 111u8, 119u8, 110u8]
}

/// The bytes of `/shutdown`.
pub fn shutdown_path_bytes() -> (r: Vec<u8>)
    ensures
        r@ == shutdown_path(),
{
    let r: Vec<u8> = vec![47u8, 115u8, 104u8, 117u8, 116u8, 100u8, 111u8, 119u8, 110u8];
    assert(r@ =~= shutdown_path());
    r
}

/// `/`
pub open spec fn root_path() -> Seq<u8> {
    seq![47u8]
}

/// The bytes of `/`.
pub fn root_path_bytes() -> (r: Vec<u8>)
    ensures
        r@ == root_path(),
{
    let r: Vec<u8> = vec![47u8];
    assert(r@ =~= root_path());
    r
}

} // verus!
