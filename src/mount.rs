//! What mounting the payment element takes: the public key, the session's
//! options, the kind of element and the anchor it is mounted under.
use vstd::prelude::*;
use crate::options::{lemma_payment_options_json, payment_options, payment_options_json};

verus! {

/// Why the payment element cannot be mounted.
#[derive(Debug, Clone, Copy, PartialEq, Eq, Structural)]
pub enum ConfigError {
    /// No public key of the payment SDK was configured.
    MissingPublicKey,
}

/// Everything the SDK is handed while the payment element is mounted.
pub struct MountPlan {
    /// The key the SDK client is created with.
    pub public_key: String,
    /// The JSON text of the elements session's options.
    pub options: String,
    /// The kind of element created from the session.
    pub element_kind: String,
    /// The selector of the DOM node the element is mounted under.
    pub anchor: String,
}

/// Plans the mount of a payment element for a payment of `price`. Without a
/// public key no plan is made, so no call of the SDK is due.
pub fn mount_plan(public_key: Option<String>, price: u32) -> (r: Result<MountPlan, ConfigError>)
    ensures
        public_key is None <==> r is Err,
        r is Err ==> r->Err_0 == ConfigError::MissingPublicKey,
        r is Ok ==> r->Ok_0.public_key == public_key->Some_0,
        r is Ok ==> r->Ok_0.options@ == payment_options_json(price),
        r is Ok ==> r->Ok_0.element_kind@ == "payment"@,
        r is Ok ==> r->Ok_0.anchor@ == "#payment-element"@,
{
    match public_key {
        None => Err(ConfigError::MissingPublicKey),
        Some(key) => {
            let options = payment_options(price);
            proof {
                lemma_payment_options_json(options, price);
            }
            Ok(
                MountPlan {
                    public_key: key,
                    options: options.to_json(),
                    element_kind: String::from_str("payment"),
                    anchor: String::from_str("#payment-element"),
                },
            )
        },
    }
}

} // verus!
