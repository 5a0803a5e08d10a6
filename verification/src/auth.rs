//! The authorization scope under which a query runs.

use vstd::prelude::*;

verus! {

/// The boundary of tenants that a query may read: a whole organization, some
/// merchants of it, or some profiles of one merchant. It comes resolved from
/// the caller and is passed through as it is.
#[derive(Debug)]
pub enum AuthInfo {
    OrgLevel { org_id: String },
    MerchantLevel { org_id: String, merchant_ids: Vec<String> },
    ProfileLevel { org_id: String, merchant_id: String, profile_ids: Vec<String> },
}

/// Mathematical model of an [`AuthInfo`].
pub enum AuthInfoView {
    OrgLevel { org_id: Seq<char> },
    MerchantLevel { org_id: Seq<char>, merchant_ids: Seq<Seq<char>> },
    ProfileLevel { org_id: Seq<char>, merchant_id: Seq<char>, profile_ids: Seq<Seq<char>> },
}

impl DeepView for AuthInfo {
    type V = AuthInfoView;

    open spec fn deep_view(&self) -> AuthInfoView {
        match self {
            AuthInfo::OrgLevel { org_id } => AuthInfoView::OrgLevel { org_id: org_id@ },
            AuthInfo::MerchantLevel { org_id, merchant_ids } => AuthInfoView::MerchantLevel {
                org_id: org_id@,
                merchant_ids: merchant_ids.deep_view(),
            },
            AuthInfo::ProfileLevel { org_id, merchant_id, profile_ids } => AuthInfoView::ProfileLevel {
                org_id: org_id@,
                merchant_id: merchant_id@,
                profile_ids: profile_ids.deep_view(),
            },
        }
    }
}

impl View for AuthInfo {
    type V = AuthInfoView;

    open spec fn view(&self) -> AuthInfoView {
        self.deep_view()
    }
}

impl AuthInfoView {
    /// The organization of the scope.
    pub open spec fn org_id(self) -> Seq<char> {
        match self {
            AuthInfoView::OrgLevel { org_id } => org_id,
            AuthInfoView::MerchantLevel { org_id, .. } => org_id,
            AuthInfoView::ProfileLevel { org_id, .. } => org_id,
        }
    }

    /// Whether the scope lets a query read a payment of the given
    /// organization, merchant and profile. A payment without a merchant or a
    /// profile is read only under a scope that does not restrict them.
    pub open spec fn admits(
        self,
        organization: Seq<char>,
        merchant: Option<Seq<char>>,
        profile: Option<Seq<char>>,
    ) -> bool {
        match self {
            AuthInfoView::OrgLevel { org_id } => organization == org_id,
            AuthInfoView::MerchantLevel { org_id, merchant_ids } => {
                &&& organization == org_id
                &&& merchant matches Some(m) && merchant_ids.contains(m)
            },
            AuthInfoView::ProfileLevel { org_id, merchant_id, profile_ids } => {
                &&& organization == org_id
                &&& merchant == Some(merchant_id)
                &&& profile matches Some(p) && profile_ids.contains(p)
            },
        }
    }
}

} // verus!
