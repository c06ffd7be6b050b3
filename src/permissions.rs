use vstd::prelude::*;

verus! {

/// A permission that a token may grant.
#[derive(Debug, Clone, Copy, PartialEq, Eq, Structural)]
pub enum Permissions {
    EcommerceBackofficeProductRead,
    EcommerceBackofficeProductCreate,
}

impl Permissions {
    /// The canonical text of the permission, `<context>.<subcontext>.<resource>:<action>`.
    pub open spec fn text(self) -> Seq<char> {
        match self {
            Permissions::EcommerceBackofficeProductRead => "ecommerce.backoffice.product:read"@,
            Permissions::EcommerceBackofficeProductCreate => "ecommerce.backoffice.product:create"@,
        }
    }

    pub fn to_string(&self) -> (r: String)
        ensures
            r@ == self.text(),
    {
        match self {
            Permissions::EcommerceBackofficeProductRead => "ecommerce.backoffice.product:read".to_string(),
            Permissions::EcommerceBackofficeProductCreate => "ecommerce.backoffice.product:create".to_string(),
        }
    }
}

} // verus!
