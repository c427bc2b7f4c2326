//! The account: its application key, and the authorization it currently holds.

use vstd::prelude::*;

verus! {

/// The application key that identifies the account to the service.
#[derive(Debug)]
pub struct ApplicationKey {
    pub id: String,
    pub secret: String,
}

/// An application key as plain values.
pub struct ApplicationKeyView {
    pub id: Seq<char>,
    pub secret: Seq<char>,
}

impl View for ApplicationKey {
    type V = ApplicationKeyView;

    open spec fn view(&self) -> ApplicationKeyView {
        ApplicationKeyView { id: self.id@, secret: self.secret@ }
    }
}

impl ApplicationKey {
    pub fn new(id: String, secret: String) -> (key: ApplicationKey)
        ensures
            key@ == (ApplicationKeyView { id: id@, secret: secret@ }),
    {
        ApplicationKey { id, secret }
    }
}

impl Clone for ApplicationKey {
    fn clone(&self) -> (copy: ApplicationKey)
        ensures
            copy@ == self@,
    {
        ApplicationKey { id: self.id.clone(), secret: self.secret.clone() }
    }
}

/// Where the storage API of an authorized account is reached.
#[derive(Debug)]
pub struct StorageApiInfo {
    pub url: String,
    pub download_url: String,
}

/// The result of a successful authorization: the account, the addresses of its
/// storage API, and the bearer token for further requests.
#[derive(Debug)]
pub struct Authorized {
    pub id: String,
    pub storage_api_info: StorageApiInfo,
    pub token: String,
}

/// An authorization as plain values.
pub struct AuthorizedView {
    pub id: Seq<char>,
    pub url: Seq<char>,
    pub download_url: Seq<char>,
    pub token: Seq<char>,
}

impl View for Authorized {
    type V = AuthorizedView;

    open spec fn view(&self) -> AuthorizedView {
        AuthorizedView {
            id: self.id@,
            url: self.storage_api_info.url@,
            download_url: self.storage_api_info.download_url@,
            token: self.token@,
        }
    }
}

impl Clone for StorageApiInfo {
    fn clone(&self) -> (copy: StorageApiInfo)
        ensures
            copy.url@ == self.url@,
            copy.download_url@ == self.download_url@,
    {
        StorageApiInfo { url: self.url.clone(), download_url: self.download_url.clone() }
    }
}

impl Clone for Authorized {
    fn clone(&self) -> (copy: Authorized)
        ensures
            copy@ == self@,
    {
        Authorized {
            id: self.id.clone(),
            storage_api_info: self.storage_api_info.clone(),
            token: self.token.clone(),
        }
    }
}

/// The view of an authorization that may be absent.
pub open spec fn authorized_view(authorized: Option<Authorized>) -> Option<AuthorizedView> {
    match authorized {
        Some(a) => Some(a@),
        None => None,
    }
}

/// An account: the key it was made with, which never changes, and the
/// authorization it holds, absent until one is stored. There is one such
/// value per account and it is not copied: whoever shares an account shares
/// this value, so that an authorization stored through one handle is the one
/// that every handle finds.
#[derive(Debug)]
pub struct Account {
    app_key: ApplicationKey,
    authorized: Option<Authorized>,
}

/// An account as plain values.
pub struct AccountView {
    pub key: ApplicationKeyView,
    pub authorized: Option<AuthorizedView>,
}

impl View for Account {
    type V = AccountView;

    closed spec fn view(&self) -> AccountView {
        AccountView { key: self.app_key@, authorized: authorized_view(self.authorized) }
    }
}

impl Account {
    /// An account with the given key and no authorization yet.
    pub fn new(id: String, secret: String) -> (account: Account)
        ensures
            account@ == (AccountView {
                key: ApplicationKeyView { id: id@, secret: secret@ },
                authorized: None,
            }),
    {
        Account { app_key: ApplicationKey::new(id, secret), authorized: None }
    }

    pub fn application_key(&self) -> (key: ApplicationKey)
        ensures
            key@ == self@.key,
    {
        self.app_key.clone()
    }

    /// The authorization that the account holds, if any.
    pub fn authorized(&self) -> (authorized: Option<Authorized>)
        ensures
            authorized_view(authorized) == self@.authorized,
    {
        match &self.authorized {
            Some(a) => Some(a.clone()),
            None => None,
        }
    }

    /// Stores an authorization in place of whatever was held. The key stays.
    pub fn set_authorized(&mut self, authorized: Authorized)
        ensures
            final(self)@ == (AccountView { key: old(self)@.key, authorized: Some(authorized@) }),
    {
        self.authorized = Some(authorized);
    }
}

} // verus!
