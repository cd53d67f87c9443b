//! The field keys the record validators look up in configuration buffers,
//! one spec/exec pair per key, each holding the key's bytes as ASCII codes.

use vstd::prelude::*;

verus! {

pub open spec fn spec_key_name() -> Seq<u8> {
    seq![110u8, 97u8, 109u8, 101u8]
}

pub fn key_name() -> (r: Vec<u8>)
    ensures
        r@ == spec_key_name(),
{
    let r: Vec<u8> = vec![110u8, 97u8, 109u8, 101u8];
    proof {
        assert(r@ =~= spec_key_name());
    }
    r
}

pub open spec fn spec_key_address() -> Seq<u8> {
    seq![97u8, 100u8, 100u8, 114u8, 101u8, 115u8, 115u8]
}

pub fn key_address() -> (r: Vec<u8>)
    ensures
        r@ == spec_key_address(),
{
    let r: Vec<u8> = vec![97u8, 100u8, 100u8, 114u8, 101u8, 115u8, 115u8];
    proof {
        assert(r@ =~= spec_key_address());
    }
    r
}

pub open spec fn spec_key_zip() -> Seq<u8> {
    seq![122u8, 105u8, 112u8]
}

pub fn key_zip() -> (r: Vec<u8>)
    ensures
        r@ == spec_key_zip(),
{
    let r: Vec<u8> = vec![122u8, 105u8, 112u8];
    proof {
        assert(r@ =~= spec_key_zip());
    }
    r
}

pub open spec fn spec_key_pobox() -> Seq<u8> {
    seq![112u8, 111u8, 98u8, 111u8, 120u8]
}

pub fn key_pobox() -> (r: Vec<u8>)
    ensures
        r@ == spec_key_pobox(),
{
    let r: Vec<u8> = vec![112u8, 111u8, 98u8, 111u8, 120u8];
    proof {
        assert(r@ =~= spec_key_pobox());
    }
    r
}

pub open spec fn spec_key_city() -> Seq<u8> {
    seq![99u8, 105u8, 116u8, 121u8]
}

pub fn key_city() -> (r: Vec<u8>)
    ensures
        r@ == spec_key_city(),
{
    let r: Vec<u8> = vec![99u8, 105u8, 116u8, 121u8];
    proof {
        assert(r@ =~= spec_key_city());
    }
    r
}

pub open spec fn spec_key_websites() -> Seq<u8> {
    seq![119u8, 101u8, 98u8, 115u8, 105u8, 116u8, 101u8, 115u8]
}

pub fn key_websites() -> (r: Vec<u8>)
    ensures
        r@ == spec_key_websites(),
{
    let r: Vec<u8> = vec![119u8, 101u8, 98u8, 115u8, 105u8, 116u8, 101u8, 115u8];
    proof {
        assert(r@ =~= spec_key_websites());
    }
    r
}

pub open spec fn spec_key_weburl() -> Seq<u8> {
    seq![119u8, 101u8, 98u8, 117u8, 114u8, 108u8]
}

pub fn key_weburl() -> (r: Vec<u8>)
    ensures
        r@ == spec_key_weburl(),
{
    let r: Vec<u8> = vec![119u8, 101u8, 98u8, 117u8, 114u8, 108u8];
    proof {
        assert(r@ =~= spec_key_weburl());
    }
    r
}

pub open spec fn spec_key_socialurls() -> Seq<u8> {
    seq![115u8, 111u8, 99u8, 105u8, 97u8, 108u8, 117u8, 114u8, 108u8, 115u8]
}

pub fn key_socialurls() -> (r: Vec<u8>)
    ensures
        r@ == spec_key_socialurls(),
{
    let r: Vec<u8> = vec![115u8, 111u8, 99u8, 105u8, 97u8, 108u8, 117u8, 114u8, 108u8, 115u8];
    proof {
        assert(r@ =~= spec_key_socialurls());
    }
    r
}

pub open spec fn spec_key_socialurl() -> Seq<u8> {
    seq![115u8, 111u8, 99u8, 105u8, 97u8, 108u8, 117u8, 114u8, 108u8]
}

pub fn key_socialurl() -> (r: Vec<u8>)
    ensures
        r@ == spec_key_socialurl(),
{
    let r: Vec<u8> = vec![115u8, 111u8, 99u8, 105u8, 97u8, 108u8, 117u8, 114u8, 108u8];
    proof {
        assert(r@ =~= spec_key_socialurl());
    }
    r
}

pub open spec fn spec_key_certifications() -> Seq<u8> {
    seq![99u8, 101u8, 114u8, 116u8, 105u8, 102u8, 105u8, 99u8, 97u8, 116u8, 105u8, 111u8, 110u8, 115u8]
}

pub fn key_certifications() -> (r: Vec<u8>)
    ensures
        r@ == spec_key_certifications(),
{
    let r: Vec<u8> = vec![99u8, 101u8, 114u8, 116u8, 105u8, 102u8, 105u8, 99u8, 97u8, 116u8, 105u8, 111u8, 110u8, 115u8];
    proof {
        assert(r@ =~= spec_key_certifications());
    }
    r
}

pub open spec fn spec_key_description() -> Seq<u8> {
    seq![100u8, 101u8, 115u8, 99u8, 114u8, 105u8, 112u8, 116u8, 105u8, 111u8, 110u8]
}

pub fn key_description() -> (r: Vec<u8>)
    ensures
        r@ == spec_key_description(),
{
    let r: Vec<u8> = vec![100u8, 101u8, 115u8, 99u8, 114u8, 105u8, 112u8, 116u8, 105u8, 111u8, 110u8];
    proof {
        assert(r@ =~= spec_key_description());
    }
    r
}

pub open spec fn spec_key_verificationurl() -> Seq<u8> {
    seq![118u8, 101u8, 114u8, 105u8, 102u8, 105u8, 99u8, 97u8, 116u8, 105u8, 111u8, 110u8, 117u8, 114u8, 108u8]
}

pub fn key_verificationurl() -> (r: Vec<u8>)
    ensures
        r@ == spec_key_verificationurl(),
{
    let r: Vec<u8> = vec![118u8, 101u8, 114u8, 105u8, 102u8, 105u8, 99u8, 97u8, 116u8, 105u8, 111u8, 110u8, 117u8, 114u8, 108u8];
    proof {
        assert(r@ =~= spec_key_verificationurl());
    }
    r
}

pub open spec fn spec_key_emailinfo() -> Seq<u8> {
    seq![101u8, 109u8, 97u8, 105u8, 108u8, 105u8, 110u8, 102u8, 111u8]
}

pub fn key_emailinfo() -> (r: Vec<u8>)
    ensures
        r@ == spec_key_emailinfo(),
{
    let r: Vec<u8> = vec![101u8, 109u8, 97u8, 105u8, 108u8, 105u8, 110u8, 102u8, 111u8];
    proof {
        assert(r@ =~= spec_key_emailinfo());
    }
    r
}

pub open spec fn spec_key_emailsupport() -> Seq<u8> {
    seq![101u8, 109u8, 97u8, 105u8, 108u8, 115u8, 117u8, 112u8, 112u8, 111u8, 114u8, 116u8]
}

pub fn key_emailsupport() -> (r: Vec<u8>)
    ensures
        r@ == spec_key_emailsupport(),
{
    let r: Vec<u8> = vec![101u8, 109u8, 97u8, 105u8, 108u8, 115u8, 117u8, 112u8, 112u8, 111u8, 114u8, 116u8];
    proof {
        assert(r@ =~= spec_key_emailsupport());
    }
    r
}

pub open spec fn spec_key_phones() -> Seq<u8> {
    seq![112u8, 104u8, 111u8, 110u8, 101u8, 115u8]
}

pub fn key_phones() -> (r: Vec<u8>)
    ensures
        r@ == spec_key_phones(),
{
    let r: Vec<u8> = vec![112u8, 104u8, 111u8, 110u8, 101u8, 115u8];
    proof {
        assert(r@ =~= spec_key_phones());
    }
    r
}

pub open spec fn spec_key_phonedescription() -> Seq<u8> {
    seq![112u8, 104u8, 111u8, 110u8, 101u8, 100u8, 101u8, 115u8, 99u8, 114u8, 105u8, 112u8, 116u8, 105u8, 111u8, 110u8]
}

pub fn key_phonedescription() -> (r: Vec<u8>)
    ensures
        r@ == spec_key_phonedescription(),
{
    let r: Vec<u8> = vec![112u8, 104u8, 111u8, 110u8, 101u8, 100u8, 101u8, 115u8, 99u8, 114u8, 105u8, 112u8, 116u8, 105u8, 111u8, 110u8];
    proof {
        assert(r@ =~= spec_key_phonedescription());
    }
    r
}

pub open spec fn spec_key_phonebumber() -> Seq<u8> {
    seq![112u8, 104u8, 111u8, 110u8, 101u8, 98u8, 117u8, 109u8, 98u8, 101u8, 114u8]
}

pub fn key_phonebumber() -> (r: Vec<u8>)
    ensures
        r@ == spec_key_phonebumber(),
{
    let r: Vec<u8> = vec![112u8, 104u8, 111u8, 110u8, 101u8, 98u8, 117u8, 109u8, 98u8, 101u8, 114u8];
    proof {
        assert(r@ =~= spec_key_phonebumber());
    }
    r
}

pub open spec fn spec_key_categories() -> Seq<u8> {
    seq![99u8, 97u8, 116u8, 101u8, 103u8, 111u8, 114u8, 105u8, 101u8, 115u8]
}

pub fn key_categories() -> (r: Vec<u8>)
    ensures
        r@ == spec_key_categories(),
{
    let r: Vec<u8> = vec![99u8, 97u8, 116u8, 101u8, 103u8, 111u8, 114u8, 105u8, 101u8, 115u8];
    proof {
        assert(r@ =~= spec_key_categories());
    }
    r
}

pub open spec fn spec_key_category() -> Seq<u8> {
    seq![99u8, 97u8, 116u8, 101u8, 103u8, 111u8, 114u8, 121u8]
}

pub fn key_category() -> (r: Vec<u8>)
    ensures
        r@ == spec_key_category(),
{
    let r: Vec<u8> = vec![99u8, 97u8, 116u8, 101u8, 103u8, 111u8, 114u8, 121u8];
    proof {
        assert(r@ =~= spec_key_category());
    }
    r
}

pub open spec fn spec_key_department() -> Seq<u8> {
    seq![100u8, 101u8, 112u8, 97u8, 114u8, 116u8, 109u8, 101u8, 110u8, 116u8]
}

pub fn key_department() -> (r: Vec<u8>)
    ensures
        r@ == spec_key_department(),
{
    let r: Vec<u8> = vec![100u8, 101u8, 112u8, 97u8, 114u8, 116u8, 109u8, 101u8, 110u8, 116u8];
    proof {
        assert(r@ =~= spec_key_department());
    }
    r
}

pub open spec fn spec_key_countries() -> Seq<u8> {
    seq![99u8, 111u8, 117u8, 110u8, 116u8, 114u8, 105u8, 101u8, 115u8]
}

pub fn key_countries() -> (r: Vec<u8>)
    ensures
        r@ == spec_key_countries(),
{
    let r: Vec<u8> = vec![99u8, 111u8, 117u8, 110u8, 116u8, 114u8, 105u8, 101u8, 115u8];
    proof {
        assert(r@ =~= spec_key_countries());
    }
    r
}

pub open spec fn spec_key_country() -> Seq<u8> {
    seq![99u8, 111u8, 117u8, 110u8, 116u8, 114u8, 121u8]
}

pub fn key_country() -> (r: Vec<u8>)
    ensures
        r@ == spec_key_country(),
{
    let r: Vec<u8> = vec![99u8, 111u8, 117u8, 110u8, 116u8, 114u8, 121u8];
    proof {
        assert(r@ =~= spec_key_country());
    }
    r
}

pub open spec fn spec_key_inout() -> Seq<u8> {
    seq![105u8, 110u8, 111u8, 117u8, 116u8]
}

pub fn key_inout() -> (r: Vec<u8>)
    ensures
        r@ == spec_key_inout(),
{
    let r: Vec<u8> = vec![105u8, 110u8, 111u8, 117u8, 116u8];
    proof {
        assert(r@ =~= spec_key_inout());
    }
    r
}

pub open spec fn spec_key_shipmentarea() -> Seq<u8> {
    seq![115u8, 104u8, 105u8, 112u8, 109u8, 101u8, 110u8, 116u8, 97u8, 114u8, 101u8, 97u8]
}

pub fn key_shipmentarea() -> (r: Vec<u8>)
    ensures
        r@ == spec_key_shipmentarea(),
{
    let r: Vec<u8> = vec![115u8, 104u8, 105u8, 112u8, 109u8, 101u8, 110u8, 116u8, 97u8, 114u8, 101u8, 97u8];
    proof {
        assert(r@ =~= spec_key_shipmentarea());
    }
    r
}

pub open spec fn spec_key_centerlatitude() -> Seq<u8> {
    seq![99u8, 101u8, 110u8, 116u8, 101u8, 114u8, 108u8, 97u8, 116u8, 105u8, 116u8, 117u8, 100u8, 101u8]
}

pub fn key_centerlatitude() -> (r: Vec<u8>)
    ensures
        r@ == spec_key_centerlatitude(),
{
    let r: Vec<u8> = vec![99u8, 101u8, 110u8, 116u8, 101u8, 114u8, 108u8, 97u8, 116u8, 105u8, 116u8, 117u8, 100u8, 101u8];
    proof {
        assert(r@ =~= spec_key_centerlatitude());
    }
    r
}

pub open spec fn spec_key_centerlongitude() -> Seq<u8> {
    seq![99u8, 101u8, 110u8, 116u8, 101u8, 114u8, 108u8, 111u8, 110u8, 103u8, 105u8, 116u8, 117u8, 100u8, 101u8]
}

pub fn key_centerlongitude() -> (r: Vec<u8>)
    ensures
        r@ == spec_key_centerlongitude(),
{
    let r: Vec<u8> = vec![99u8, 101u8, 110u8, 116u8, 101u8, 114u8, 108u8, 111u8, 110u8, 103u8, 105u8, 116u8, 117u8, 100u8, 101u8];
    proof {
        assert(r@ =~= spec_key_centerlongitude());
    }
    r
}

pub open spec fn spec_key_borderlatitude() -> Seq<u8> {
    seq![98u8, 111u8, 114u8, 100u8, 101u8, 114u8, 108u8, 97u8, 116u8, 105u8, 116u8, 117u8, 100u8, 101u8]
}

pub fn key_borderlatitude() -> (r: Vec<u8>)
    ensures
        r@ == spec_key_borderlatitude(),
{
    let r: Vec<u8> = vec![98u8, 111u8, 114u8, 100u8, 101u8, 114u8, 108u8, 97u8, 116u8, 105u8, 116u8, 117u8, 100u8, 101u8];
    proof {
        assert(r@ =~= spec_key_borderlatitude());
    }
    r
}

pub open spec fn spec_key_borderlongitude() -> Seq<u8> {
    seq![98u8, 111u8, 114u8, 100u8, 101u8, 114u8, 108u8, 111u8, 110u8, 103u8, 105u8, 116u8, 117u8, 100u8, 101u8]
}

pub fn key_borderlongitude() -> (r: Vec<u8>)
    ensures
        r@ == spec_key_borderlongitude(),
{
    let r: Vec<u8> = vec![98u8, 111u8, 114u8, 100u8, 101u8, 114u8, 108u8, 111u8, 110u8, 103u8, 105u8, 116u8, 117u8, 100u8, 101u8];
    proof {
        assert(r@ =~= spec_key_borderlongitude());
    }
    r
}

pub open spec fn spec_key_defaultlanguage() -> Seq<u8> {
    seq![100u8, 101u8, 102u8, 97u8, 117u8, 108u8, 116u8, 108u8, 97u8, 110u8, 103u8, 117u8, 97u8, 103u8, 101u8]
}

pub fn key_defaultlanguage() -> (r: Vec<u8>)
    ensures
        r@ == spec_key_defaultlanguage(),
{
    let r: Vec<u8> = vec![100u8, 101u8, 102u8, 97u8, 117u8, 108u8, 116u8, 108u8, 97u8, 110u8, 103u8, 117u8, 97u8, 103u8, 101u8];
    proof {
        assert(r@ =~= spec_key_defaultlanguage());
    }
    r
}

pub open spec fn spec_key_defaultunitmeasurement() -> Seq<u8> {
    seq![100u8, 101u8, 102u8, 97u8, 117u8, 108u8, 116u8, 117u8, 110u8, 105u8, 116u8, 109u8, 101u8, 97u8, 115u8, 117u8, 114u8, 101u8, 109u8, 101u8, 110u8, 116u8]
}

pub fn key_defaultunitmeasurement() -> (r: Vec<u8>)
    ensures
        r@ == spec_key_defaultunitmeasurement(),
{
    let r: Vec<u8> = vec![100u8, 101u8, 102u8, 97u8, 117u8, 108u8, 116u8, 117u8, 110u8, 105u8, 116u8, 109u8, 101u8, 97u8, 115u8, 117u8, 114u8, 101u8, 109u8, 101u8, 110u8, 116u8];
    proof {
        assert(r@ =~= spec_key_defaultunitmeasurement());
    }
    r
}

pub open spec fn spec_key_defaultreturnpolicy() -> Seq<u8> {
    seq![100u8, 101u8, 102u8, 97u8, 117u8, 108u8, 116u8, 114u8, 101u8, 116u8, 117u8, 114u8, 110u8, 112u8, 111u8, 108u8, 105u8, 99u8, 121u8]
}

pub fn key_defaultreturnpolicy() -> (r: Vec<u8>)
    ensures
        r@ == spec_key_defaultreturnpolicy(),
{
    let r: Vec<u8> = vec![100u8, 101u8, 102u8, 97u8, 117u8, 108u8, 116u8, 114u8, 101u8, 116u8, 117u8, 114u8, 110u8, 112u8, 111u8, 108u8, 105u8, 99u8, 121u8];
    proof {
        assert(r@ =~= spec_key_defaultreturnpolicy());
    }
    r
}

pub open spec fn spec_key_selleraccount() -> Seq<u8> {
    seq![115u8, 101u8, 108u8, 108u8, 101u8, 114u8, 97u8, 99u8, 99u8, 111u8, 117u8, 110u8, 116u8]
}

pub fn key_selleraccount() -> (r: Vec<u8>)
    ensures
        r@ == spec_key_selleraccount(),
{
    let r: Vec<u8> = vec![115u8, 101u8, 108u8, 108u8, 101u8, 114u8, 97u8, 99u8, 99u8, 111u8, 117u8, 110u8, 116u8];
    proof {
        assert(r@ =~= spec_key_selleraccount());
    }
    r
}

pub open spec fn spec_key_proxyaccount() -> Seq<u8> {
    seq![112u8, 114u8, 111u8, 120u8, 121u8, 97u8, 99u8, 99u8, 111u8, 117u8, 110u8, 116u8]
}

pub fn key_proxyaccount() -> (r: Vec<u8>)
    ensures
        r@ == spec_key_proxyaccount(),
{
    let r: Vec<u8> = vec![112u8, 114u8, 111u8, 120u8, 121u8, 97u8, 99u8, 99u8, 111u8, 117u8, 110u8, 116u8];
    proof {
        assert(r@ =~= spec_key_proxyaccount());
    }
    r
}

pub open spec fn spec_key_sellertype() -> Seq<u8> {
    seq![115u8, 101u8, 108u8, 108u8, 101u8, 114u8, 116u8, 121u8, 112u8, 101u8]
}

pub fn key_sellertype() -> (r: Vec<u8>)
    ensures
        r@ == spec_key_sellertype(),
{
    let r: Vec<u8> = vec![115u8, 101u8, 108u8, 108u8, 101u8, 114u8, 116u8, 121u8, 112u8, 101u8];
    proof {
        assert(r@ =~= spec_key_sellertype());
    }
    r
}

pub open spec fn spec_key_longdescription() -> Seq<u8> {
    seq![108u8, 111u8, 110u8, 103u8, 100u8, 101u8, 115u8, 99u8, 114u8, 105u8, 112u8, 116u8, 105u8, 111u8, 110u8]
}

pub fn key_longdescription() -> (r: Vec<u8>)
    ensures
        r@ == spec_key_longdescription(),
{
    let r: Vec<u8> = vec![108u8, 111u8, 110u8, 103u8, 100u8, 101u8, 115u8, 99u8, 114u8, 105u8, 112u8, 116u8, 105u8, 111u8, 110u8];
    proof {
        assert(r@ =~= spec_key_longdescription());
    }
    r
}

pub open spec fn spec_key_price() -> Seq<u8> {
    seq![112u8, 114u8, 105u8, 99u8, 101u8]
}

pub fn key_price() -> (r: Vec<u8>)
    ensures
        r@ == spec_key_price(),
{
    let r: Vec<u8> = vec![112u8, 114u8, 105u8, 99u8, 101u8];
    proof {
        assert(r@ =~= spec_key_price());
    }
    r
}

pub open spec fn spec_key_currency() -> Seq<u8> {
    seq![99u8, 117u8, 114u8, 114u8, 101u8, 110u8, 99u8, 121u8]
}

pub fn key_currency() -> (r: Vec<u8>)
    ensures
        r@ == spec_key_currency(),
{
    let r: Vec<u8> = vec![99u8, 117u8, 114u8, 114u8, 101u8, 110u8, 99u8, 121u8];
    proof {
        assert(r@ =~= spec_key_currency());
    }
    r
}

pub open spec fn spec_key_specifications() -> Seq<u8> {
    seq![115u8, 112u8, 101u8, 99u8, 105u8, 102u8, 105u8, 99u8, 97u8, 116u8, 105u8, 111u8, 110u8, 115u8]
}

pub fn key_specifications() -> (r: Vec<u8>)
    ensures
        r@ == spec_key_specifications(),
{
    let r: Vec<u8> = vec![115u8, 112u8, 101u8, 99u8, 105u8, 102u8, 105u8, 99u8, 97u8, 116u8, 105u8, 111u8, 110u8, 115u8];
    proof {
        assert(r@ =~= spec_key_specifications());
    }
    r
}

pub open spec fn spec_key_media() -> Seq<u8> {
    seq![109u8, 101u8, 100u8, 105u8, 97u8]
}

pub fn key_media() -> (r: Vec<u8>)
    ensures
        r@ == spec_key_media(),
{
    let r: Vec<u8> = vec![109u8, 101u8, 100u8, 105u8, 97u8];
    proof {
        assert(r@ =~= spec_key_media());
    }
    r
}

pub open spec fn spec_key_filename() -> Seq<u8> {
    seq![102u8, 105u8, 108u8, 101u8, 110u8, 97u8, 109u8, 101u8]
}

pub fn key_filename() -> (r: Vec<u8>)
    ensures
        r@ == spec_key_filename(),
{
    let r: Vec<u8> = vec![102u8, 105u8, 108u8, 101u8, 110u8, 97u8, 109u8, 101u8];
    proof {
        assert(r@ =~= spec_key_filename());
    }
    r
}

pub open spec fn spec_key_ipfs() -> Seq<u8> {
    seq![105u8, 112u8, 102u8, 115u8]
}

pub fn key_ipfs() -> (r: Vec<u8>)
    ensures
        r@ == spec_key_ipfs(),
{
    let r: Vec<u8> = vec![105u8, 112u8, 102u8, 115u8];
    proof {
        assert(r@ =~= spec_key_ipfs());
    }
    r
}

pub open spec fn spec_key_color() -> Seq<u8> {
    seq![99u8, 111u8, 108u8, 111u8, 114u8]
}

pub fn key_color() -> (r: Vec<u8>)
    ensures
        r@ == spec_key_color(),
{
    let r: Vec<u8> = vec![99u8, 111u8, 108u8, 111u8, 114u8];
    proof {
        assert(r@ =~= spec_key_color());
    }
    r
}

pub open spec fn spec_key_colors() -> Seq<u8> {
    seq![99u8, 111u8, 108u8, 111u8, 114u8, 115u8]
}

pub fn key_colors() -> (r: Vec<u8>)
    ensures
        r@ == spec_key_colors(),
{
    let r: Vec<u8> = vec![99u8, 111u8, 108u8, 111u8, 114u8, 115u8];
    proof {
        assert(r@ =~= spec_key_colors());
    }
    r
}

pub open spec fn spec_key_sizes() -> Seq<u8> {
    seq![115u8, 105u8, 122u8, 101u8, 115u8]
}

pub fn key_sizes() -> (r: Vec<u8>)
    ensures
        r@ == spec_key_sizes(),
{
    let r: Vec<u8> = vec![115u8, 105u8, 122u8, 101u8, 115u8];
    proof {
        assert(r@ =~= spec_key_sizes());
    }
    r
}

pub open spec fn spec_key_dimension() -> Seq<u8> {
    seq![100u8, 105u8, 109u8, 101u8, 110u8, 115u8, 105u8, 111u8, 110u8]
}

pub fn key_dimension() -> (r: Vec<u8>)
    ensures
        r@ == spec_key_dimension(),
{
    let r: Vec<u8> = vec![100u8, 105u8, 109u8, 101u8, 110u8, 115u8, 105u8, 111u8, 110u8];
    proof {
        assert(r@ =~= spec_key_dimension());
    }
    r
}

pub open spec fn spec_key_upc() -> Seq<u8> {
    seq![117u8, 112u8, 99u8]
}

pub fn key_upc() -> (r: Vec<u8>)
    ensures
        r@ == spec_key_upc(),
{
    let r: Vec<u8> = vec![117u8, 112u8, 99u8];
    proof {
        assert(r@ =~= spec_key_upc());
    }
    r
}

pub open spec fn spec_key_shippingcountries() -> Seq<u8> {
    seq![115u8, 104u8, 105u8, 112u8, 112u8, 105u8, 110u8, 103u8, 99u8, 111u8, 117u8, 110u8, 116u8, 114u8, 105u8, 101u8, 115u8]
}

pub fn key_shippingcountries() -> (r: Vec<u8>)
    ensures
        r@ == spec_key_shippingcountries(),
{
    let r: Vec<u8> = vec![115u8, 104u8, 105u8, 112u8, 112u8, 105u8, 110u8, 103u8, 99u8, 111u8, 117u8, 110u8, 116u8, 114u8, 105u8, 101u8, 115u8];
    proof {
        assert(r@ =~= spec_key_shippingcountries());
    }
    r
}

pub open spec fn spec_key_shippers() -> Seq<u8> {
    seq![115u8, 104u8, 105u8, 112u8, 112u8, 101u8, 114u8, 115u8]
}

pub fn key_shippers() -> (r: Vec<u8>)
    ensures
        r@ == spec_key_shippers(),
{
    let r: Vec<u8> = vec![115u8, 104u8, 105u8, 112u8, 112u8, 101u8, 114u8, 115u8];
    proof {
        assert(r@ =~= spec_key_shippers());
    }
    r
}

pub open spec fn spec_key_apiavailability() -> Seq<u8> {
    seq![97u8, 112u8, 105u8, 97u8, 118u8, 97u8, 105u8, 108u8, 97u8, 98u8, 105u8, 108u8, 105u8, 116u8, 121u8]
}

pub fn key_apiavailability() -> (r: Vec<u8>)
    ensures
        r@ == spec_key_apiavailability(),
{
    let r: Vec<u8> = vec![97u8, 112u8, 105u8, 97u8, 118u8, 97u8, 105u8, 108u8, 97u8, 98u8, 105u8, 108u8, 105u8, 116u8, 121u8];
    proof {
        assert(r@ =~= spec_key_apiavailability());
    }
    r
}

pub open spec fn spec_key_language() -> Seq<u8> {
    seq![108u8, 97u8, 110u8, 103u8, 117u8, 97u8, 103u8, 101u8]
}

pub fn key_language() -> (r: Vec<u8>)
    ensures
        r@ == spec_key_language(),
{
    let r: Vec<u8> = vec![108u8, 97u8, 110u8, 103u8, 117u8, 97u8, 103u8, 101u8];
    proof {
        assert(r@ =~= spec_key_language());
    }
    r
}

pub open spec fn spec_key_code() -> Seq<u8> {
    seq![99u8, 111u8, 100u8, 101u8]
}

pub fn key_code() -> (r: Vec<u8>)
    ensures
        r@ == spec_key_code(),
{
    let r: Vec<u8> = vec![99u8, 111u8, 100u8, 101u8];
    proof {
        assert(r@ =~= spec_key_code());
    }
    r
}

pub open spec fn spec_key_area() -> Seq<u8> {
    seq![97u8, 114u8, 101u8, 97u8]
}

pub fn key_area() -> (r: Vec<u8>)
    ensures
        r@ == spec_key_area(),
{
    let r: Vec<u8> = vec![97u8, 114u8, 101u8, 97u8];
    proof {
        assert(r@ =~= spec_key_area());
    }
    r
}

pub open spec fn spec_key_blockchain() -> Seq<u8> {
    seq![98u8, 108u8, 111u8, 99u8, 107u8, 99u8, 104u8, 97u8, 105u8, 110u8]
}

pub fn key_blockchain() -> (r: Vec<u8>)
    ensures
        r@ == spec_key_blockchain(),
{
    let r: Vec<u8> = vec![98u8, 108u8, 111u8, 99u8, 107u8, 99u8, 104u8, 97u8, 105u8, 110u8];
    proof {
        assert(r@ =~= spec_key_blockchain());
    }
    r
}

pub open spec fn spec_key_shipperid() -> Seq<u8> {
    seq![115u8, 104u8, 105u8, 112u8, 112u8, 101u8, 114u8, 105u8, 100u8]
}

pub fn key_shipperid() -> (r: Vec<u8>)
    ensures
        r@ == spec_key_shipperid(),
{
    let r: Vec<u8> = vec![115u8, 104u8, 105u8, 112u8, 112u8, 101u8, 114u8, 105u8, 100u8];
    proof {
        assert(r@ =~= spec_key_shipperid());
    }
    r
}

pub open spec fn spec_key_origincountry() -> Seq<u8> {
    seq![111u8, 114u8, 105u8, 103u8, 105u8, 110u8, 99u8, 111u8, 117u8, 110u8, 116u8, 114u8, 121u8]
}

pub fn key_origincountry() -> (r: Vec<u8>)
    ensures
        r@ == spec_key_origincountry(),
{
    let r: Vec<u8> = vec![111u8, 114u8, 105u8, 103u8, 105u8, 110u8, 99u8, 111u8, 117u8, 110u8, 116u8, 114u8, 121u8];
    proof {
        assert(r@ =~= spec_key_origincountry());
    }
    r
}

pub open spec fn spec_key_rates() -> Seq<u8> {
    seq![114u8, 97u8, 116u8, 101u8, 115u8]
}

pub fn key_rates() -> (r: Vec<u8>)
    ensures
        r@ == spec_key_rates(),
{
    let r: Vec<u8> = vec![114u8, 97u8, 116u8, 101u8, 115u8];
    proof {
        assert(r@ =~= spec_key_rates());
    }
    r
}

pub open spec fn spec_key_destination() -> Seq<u8> {
    seq![100u8, 101u8, 115u8, 116u8, 105u8, 110u8, 97u8, 116u8, 105u8, 111u8, 110u8]
}

pub fn key_destination() -> (r: Vec<u8>)
    ensures
        r@ == spec_key_destination(),
{
    let r: Vec<u8> = vec![100u8, 101u8, 115u8, 116u8, 105u8, 110u8, 97u8, 116u8, 105u8, 111u8, 110u8];
    proof {
        assert(r@ =~= spec_key_destination());
    }
    r
}

pub open spec fn spec_key_fromkg() -> Seq<u8> {
    seq![102u8, 114u8, 111u8, 109u8, 107u8, 103u8]
}

pub fn key_fromkg() -> (r: Vec<u8>)
    ensures
        r@ == spec_key_fromkg(),
{
    let r: Vec<u8> = vec![102u8, 114u8, 111u8, 109u8, 107u8, 103u8];
    proof {
        assert(r@ =~= spec_key_fromkg());
    }
    r
}

pub open spec fn spec_key_tokg() -> Seq<u8> {
    seq![116u8, 111u8, 107u8, 103u8]
}

pub fn key_tokg() -> (r: Vec<u8>)
    ensures
        r@ == spec_key_tokg(),
{
    let r: Vec<u8> = vec![116u8, 111u8, 107u8, 103u8];
    proof {
        assert(r@ =~= spec_key_tokg());
    }
    r
}

pub open spec fn spec_key_rate() -> Seq<u8> {
    seq![114u8, 97u8, 116u8, 101u8]
}

pub fn key_rate() -> (r: Vec<u8>)
    ensures
        r@ == spec_key_rate(),
{
    let r: Vec<u8> = vec![114u8, 97u8, 116u8, 101u8];
    proof {
        assert(r@ =~= spec_key_rate());
    }
    r
}

pub open spec fn spec_key_precintid() -> Seq<u8> {
    seq![112u8, 114u8, 101u8, 99u8, 105u8, 110u8, 116u8, 105u8, 100u8]
}

pub fn key_precintid() -> (r: Vec<u8>)
    ensures
        r@ == spec_key_precintid(),
{
    let r: Vec<u8> = vec![112u8, 114u8, 101u8, 99u8, 105u8, 110u8, 116u8, 105u8, 100u8];
    proof {
        assert(r@ =~= spec_key_precintid());
    }
    r
}

pub open spec fn spec_key_districtid() -> Seq<u8> {
    seq![100u8, 105u8, 115u8, 116u8, 114u8, 105u8, 99u8, 116u8, 105u8, 100u8]
}

pub fn key_districtid() -> (r: Vec<u8>)
    ensures
        r@ == spec_key_districtid(),
{
    let r: Vec<u8> = vec![100u8, 105u8, 115u8, 116u8, 114u8, 105u8, 99u8, 116u8, 105u8, 100u8];
    proof {
        assert(r@ =~= spec_key_districtid());
    }
    r
}

pub open spec fn spec_key_sessionid() -> Seq<u8> {
    seq![115u8, 101u8, 115u8, 115u8, 105u8, 111u8, 110u8, 105u8, 100u8]
}

pub fn key_sessionid() -> (r: Vec<u8>)
    ensures
        r@ == spec_key_sessionid(),
{
    let r: Vec<u8> = vec![115u8, 101u8, 115u8, 115u8, 105u8, 111u8, 110u8, 105u8, 100u8];
    proof {
        assert(r@ =~= spec_key_sessionid());
    }
    r
}

pub open spec fn spec_key_datestart() -> Seq<u8> {
    seq![100u8, 97u8, 116u8, 101u8, 115u8, 116u8, 97u8, 114u8, 116u8]
}

pub fn key_datestart() -> (r: Vec<u8>)
    ensures
        r@ == spec_key_datestart(),
{
    let r: Vec<u8> = vec![100u8, 97u8, 116u8, 101u8, 115u8, 116u8, 97u8, 114u8, 116u8];
    proof {
        assert(r@ =~= spec_key_datestart());
    }
    r
}

pub open spec fn spec_key_dateend() -> Seq<u8> {
    seq![100u8, 97u8, 116u8, 101u8, 101u8, 110u8, 100u8]
}

pub fn key_dateend() -> (r: Vec<u8>)
    ensures
        r@ == spec_key_dateend(),
{
    let r: Vec<u8> = vec![100u8, 97u8, 116u8, 101u8, 101u8, 110u8, 100u8];
    proof {
        assert(r@ =~= spec_key_dateend());
    }
    r
}

pub open spec fn spec_key_url() -> Seq<u8> {
    seq![117u8, 114u8, 108u8]
}

pub fn key_url() -> (r: Vec<u8>)
    ensures
        r@ == spec_key_url(),
{
    let r: Vec<u8> = vec![117u8, 114u8, 108u8];
    proof {
        assert(r@ =~= spec_key_url());
    }
    r
}

pub open spec fn spec_key_website() -> Seq<u8> {
    seq![119u8, 101u8, 98u8, 115u8, 105u8, 116u8, 101u8]
}

pub fn key_website() -> (r: Vec<u8>)
    ensures
        r@ == spec_key_website(),
{
    let r: Vec<u8> = vec![119u8, 101u8, 98u8, 115u8, 105u8, 116u8, 101u8];
    proof {
        assert(r@ =~= spec_key_website());
    }
    r
}

pub open spec fn spec_key_manufacturer() -> Seq<u8> {
    seq![109u8, 97u8, 110u8, 117u8, 102u8, 97u8, 99u8, 116u8, 117u8, 114u8, 101u8, 114u8]
}

pub fn key_manufacturer() -> (r: Vec<u8>)
    ensures
        r@ == spec_key_manufacturer(),
{
    let r: Vec<u8> = vec![109u8, 97u8, 110u8, 117u8, 102u8, 97u8, 99u8, 116u8, 117u8, 114u8, 101u8, 114u8];
    proof {
        assert(r@ =~= spec_key_manufacturer());
    }
    r
}

pub open spec fn spec_key_brand() -> Seq<u8> {
    seq![98u8, 114u8, 97u8, 110u8, 100u8]
}

pub fn key_brand() -> (r: Vec<u8>)
    ensures
        r@ == spec_key_brand(),
{
    let r: Vec<u8> = vec![98u8, 114u8, 97u8, 110u8, 100u8];
    proof {
        assert(r@ =~= spec_key_brand());
    }
    r
}

pub open spec fn spec_key_origincountries() -> Seq<u8> {
    seq![111u8, 114u8, 105u8, 103u8, 105u8, 110u8, 99u8, 111u8, 117u8, 110u8, 116u8, 114u8, 105u8, 101u8, 115u8]
}

pub fn key_origincountries() -> (r: Vec<u8>)
    ensures
        r@ == spec_key_origincountries(),
{
    let r: Vec<u8> = vec![111u8, 114u8, 105u8, 103u8, 105u8, 110u8, 99u8, 111u8, 117u8, 110u8, 116u8, 114u8, 105u8, 101u8, 115u8];
    proof {
        assert(r@ =~= spec_key_origincountries());
    }
    r
}

pub open spec fn spec_key_destinationcountries() -> Seq<u8> {
    seq![100u8, 101u8, 115u8, 116u8, 105u8, 110u8, 97u8, 116u8, 105u8, 111u8, 110u8, 99u8, 111u8, 117u8, 110u8, 116u8, 114u8, 105u8, 101u8, 115u8]
}

pub fn key_destinationcountries() -> (r: Vec<u8>)
    ensures
        r@ == spec_key_destinationcountries(),
{
    let r: Vec<u8> = vec![100u8, 101u8, 115u8, 116u8, 105u8, 110u8, 97u8, 116u8, 105u8, 111u8, 110u8, 99u8, 111u8, 117u8, 110u8, 116u8, 114u8, 105u8, 101u8, 115u8];
    proof {
        assert(r@ =~= spec_key_destinationcountries());
    }
    r
}

pub open spec fn spec_key_countyid() -> Seq<u8> {
    seq![99u8, 111u8, 117u8, 110u8, 116u8, 121u8, 105u8, 100u8]
}

pub fn key_countyid() -> (r: Vec<u8>)
    ensures
        r@ == spec_key_countyid(),
{
    let r: Vec<u8> = vec![99u8, 111u8, 117u8, 110u8, 116u8, 121u8, 105u8, 100u8];
    proof {
        assert(r@ =~= spec_key_countyid());
    }
    r
}

pub open spec fn spec_key_countryid() -> Seq<u8> {
    seq![99u8, 111u8, 117u8, 110u8, 116u8, 114u8, 121u8, 105u8, 100u8]
}

pub fn key_countryid() -> (r: Vec<u8>)
    ensures
        r@ == spec_key_countryid(),
{
    let r: Vec<u8> = vec![99u8, 111u8, 117u8, 110u8, 116u8, 114u8, 121u8, 105u8, 100u8];
    proof {
        assert(r@ =~= spec_key_countryid());
    }
    r
}

} // verus!
