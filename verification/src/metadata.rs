use vstd::prelude::*;

verus! {

/// An SSH public key that the metadata service lists for the VM, with the
/// path of the `authorized_keys` file it belongs in.
#[derive(Debug, PartialEq)]
pub struct PublicKey {
    pub key_data: String,
    pub path: String,
}

pub struct PublicKeyView {
    pub key_data: Seq<char>,
    pub path: Seq<char>,
}

impl View for PublicKey {
    type V = PublicKeyView;

    open spec fn view(&self) -> PublicKeyView {
        PublicKeyView { key_data: self.key_data@, path: self.path@ }
    }
}

pub open spec fn keys_view(keys: Seq<PublicKey>) -> Seq<PublicKeyView> {
    keys.map_values(|k: PublicKey| k@)
}

impl PublicKey {
    /// A copy of the key, field for field.
    pub fn duplicate(&self) -> (r: PublicKey)
        ensures
            r@ == self@,
    {
        PublicKey { key_data: self.key_data.clone(), path: self.path.clone() }
    }
}

} // verus!
