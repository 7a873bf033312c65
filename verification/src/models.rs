//! Plain data carried through the gateway.

use vstd::prelude::*;

verus! {

/// Process-wide configuration: where the upstream service lives and the key
/// that authenticates every call to it. Built once, then only read.
#[derive(Clone, Debug)]
pub struct AppState {
    pub supabase_url: String,
    pub supabase_api_key: String,
}

/// The body of an account-creation request.
#[derive(Clone, Debug)]
pub struct SignUpRequest {
    pub email: String,
    pub password: String,
    pub username: Option<String>,
    pub subscription_plan: String,
    pub profile_picture_url: Option<String>,
}

/// What a successful account creation hands back to the caller.
#[derive(Clone, Debug)]
pub struct SignUpResponse {
    pub user_id: String,
    pub access_token: String,
}

/// A user as seen by callers of the gateway.
#[derive(Clone, Debug)]
pub struct User {
    pub id: String,
    pub email: String,
    pub username: Option<String>,
    pub access_token: String,
}

/// The identity that the upstream auth resource returns on sign-up.
#[derive(Clone, Debug)]
pub struct AuthResponse {
    pub access_token: String,
    pub token_type: String,
    pub expires_in: u32,
    pub expires_at: u64,
    pub refresh_token: String,
    pub user: UserDetails,
}

/// The user inside an identity.
#[derive(Clone, Debug)]
pub struct UserDetails {
    pub id: String,
    pub aud: String,
    pub role: String,
    pub email: String,
    pub email_confirmed_at: String,
    pub phone: String,
    pub last_sign_in_at: String,
    pub app_metadata: AppMetadata,
    pub user_metadata: UserMetadata,
    pub identities: Vec<Identity>,
    pub created_at: String,
    pub updated_at: String,
    pub is_anonymous: bool,
}

/// How the identity was provided.
#[derive(Clone, Debug)]
pub struct AppMetadata {
    pub provider: String,
    pub providers: Vec<String>,
}

/// What the user has confirmed about themselves.
#[derive(Clone, Debug)]
pub struct UserMetadata {
    pub email: String,
    pub email_verified: bool,
    pub phone_verified: bool,
    pub sub: String,
}

/// One sign-in identity linked to the user.
#[derive(Clone, Debug)]
pub struct Identity {
    pub identity_id: String,
    pub id: String,
    pub user_id: String,
    pub identity_data: IdentityData,
    pub provider: String,
    pub last_sign_in_at: String,
    pub created_at: String,
    pub updated_at: String,
    pub email: String,
}

/// The confirmed data of one linked identity.
#[derive(Clone, Debug)]
pub struct IdentityData {
    pub email: String,
    pub email_verified: bool,
    pub phone_verified: bool,
    pub sub: String,
}

} // verus!
