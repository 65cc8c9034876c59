//! A minimal, configuration-only store surface.
//!
//! `DefaultDocumentStore` carries what a caller configured and nothing
//! else; its builder is a template whose `build` hands out an independent
//! copy each time.

use vstd::prelude::*;

verus! {

/// Reserved conventions carrier for the minimal store surface.
#[derive(Clone, Copy, Debug, PartialEq, Eq, Structural)]
pub struct Conventions;

/// Reserved certificate carrier for the minimal store surface.
#[derive(Clone, Copy, Debug, PartialEq, Eq, Structural)]
pub struct Certificate;

/// The configuration a minimal store holds.
#[derive(Clone, Debug)]
pub struct DefaultDocumentStore {
    pub urls: Vec<String>,
    pub conventions: Option<Conventions>,
    pub database: Option<String>,
    pub certificate: Option<Certificate>,
}

impl DefaultDocumentStore {
    pub fn empty() -> (r: Self)
        ensures
            r.urls@.len() == 0,
            r.conventions is None,
            r.database is None,
            r.certificate is None,
    {
        DefaultDocumentStore {
            urls: Vec::new(),
            conventions: Option::None,
            database: Option::None,
            certificate: Option::None,
        }
    }

    /// A copy equal to this store, field by field.
    pub fn duplicate(&self) -> (r: Self)
        ensures
            r.urls@ == self.urls@,
            r.conventions == self.conventions,
            r.database == self.database,
            r.certificate == self.certificate,
    {
        let mut urls: Vec<String> = Vec::new();
        let mut i: usize = 0;
        while i < self.urls.len()
            invariant
                i <= self.urls@.len(),
                urls@.len() == i,
                forall|k: int| 0 <= k < i ==> urls@[k] == self.urls@[k],
            decreases self.urls@.len() - i,
        {
            urls.push(self.urls[i].clone());
            i += 1;
        }
        proof {
            assert(urls@ =~= self.urls@);
        }
        let database = match &self.database {
            Option::Some(d) => Option::Some(d.clone()),
            Option::None => Option::None,
        };
        DefaultDocumentStore {
            urls,
            conventions: self.conventions,
            database,
            certificate: self.certificate,
        }
    }
}

/// Builds `DefaultDocumentStore` values; usable as a template.
#[derive(Clone, Debug)]
pub struct DefaultDocumentStoreBuilder {
    pub document_store: DefaultDocumentStore,
}

impl DefaultDocumentStoreBuilder {
    pub fn new() -> (r: Self)
        ensures
            r.document_store.urls@.len() == 0,
            r.document_store.conventions is None,
            r.document_store.database is None,
            r.document_store.certificate is None,
    {
        DefaultDocumentStoreBuilder { document_store: DefaultDocumentStore::empty() }
    }

    /// Set the store's URLs.
    pub fn set_urls(&mut self, urls: Vec<String>)
        ensures
            final(self).document_store.urls == urls,
            final(self).document_store.conventions == old(self).document_store.conventions,
            final(self).document_store.database == old(self).document_store.database,
            final(self).document_store.certificate == old(self).document_store.certificate,
    {
        self.document_store.urls = urls;
    }

    /// Set the store's conventions.
    pub fn set_conventions(&mut self, conventions: Conventions)
        ensures
            final(self).document_store.conventions == Some(conventions),
            final(self).document_store.urls == old(self).document_store.urls,
            final(self).document_store.database == old(self).document_store.database,
            final(self).document_store.certificate == old(self).document_store.certificate,
    {
        self.document_store.conventions = Option::Some(conventions);
    }

    /// Set the store's database.
    pub fn set_database(&mut self, database: String)
        ensures
            final(self).document_store.database == Some(database),
            final(self).document_store.urls == old(self).document_store.urls,
            final(self).document_store.conventions == old(self).document_store.conventions,
            final(self).document_store.certificate == old(self).document_store.certificate,
    {
        self.document_store.database = Option::Some(database);
    }

    /// Set the store's certificate.
    pub fn set_certificate(&mut self, certificate: Certificate)
        ensures
            final(self).document_store.certificate == Some(certificate),
            final(self).document_store.urls == old(self).document_store.urls,
            final(self).document_store.conventions == old(self).document_store.conventions,
            final(self).document_store.database == old(self).document_store.database,
    {
        self.document_store.certificate = Option::Some(certificate);
    }

    /// A store equal to the configured one; the builder stays usable.
    pub fn build(&self) -> (r: DefaultDocumentStore)
        ensures
            r.urls@ == self.document_store.urls@,
            r.conventions == self.document_store.conventions,
            r.database == self.document_store.database,
            r.certificate == self.document_store.certificate,
    {
        self.document_store.duplicate()
    }
}

} // verus!
