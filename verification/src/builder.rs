//! Configuring and building the store.
use std::sync::Arc;

use vstd::prelude::*;

use crate::error::Error;
use crate::store::{GoogleCloudStorage, GoogleCloudStorageRapid};

verus! {

/// The configuration of the store that serves what needs no gRPC. What else it
/// is configured with, from the environment for instance, is left to the caller.
#[derive(Debug, PartialEq)]
pub struct GoogleCloudStorageBuilder<R> {
    pub bucket_name: Option<String>,
    pub service_account_key: Option<String>,
    pub service_account_path: Option<String>,
    pub application_credentials: Option<String>,
    pub rest: Option<Arc<R>>,
}

impl<R> GoogleCloudStorageBuilder<R> {
    /// A configuration in which nothing is set.
    pub fn new() -> (builder: GoogleCloudStorageBuilder<R>)
        ensures
            builder == unset::<R>(),
    {
        GoogleCloudStorageBuilder {
            bucket_name: None,
            service_account_key: None,
            service_account_path: None,
            application_credentials: None,
            rest: None,
        }
    }
}

impl<R> Clone for GoogleCloudStorageBuilder<R> {
    fn clone(&self) -> (builder: GoogleCloudStorageBuilder<R>)
        ensures
            builder == *self,
    {
        GoogleCloudStorageBuilder {
            bucket_name: self.bucket_name.clone(),
            service_account_key: self.service_account_key.clone(),
            service_account_path: self.service_account_path.clone(),
            application_credentials: self.application_credentials.clone(),
            rest: match &self.rest {
                Some(rest) => Some(rest.clone()),
                None => None,
            },
        }
    }
}

/// A configuration in which nothing is set.
pub open spec fn unset<R>() -> GoogleCloudStorageBuilder<R> {
    GoogleCloudStorageBuilder {
        bucket_name: None,
        service_account_key: None,
        service_account_path: None,
        application_credentials: None,
        rest: None,
    }
}

/// The configuration of a [`GoogleCloudStorageRapid`]: an inner store, or what
/// one is built from, and where the gRPC service is reached.
#[derive(Debug)]
pub struct GoogleCloudStorageRapidBuilder<S, C, R> {
    inner_store: Option<GoogleCloudStorage<S, C>>,
    inner_builder: GoogleCloudStorageBuilder<R>,
    grpc_endpoint: Option<String>,
}

/// The mathematical value of a [`GoogleCloudStorageRapidBuilder`].
pub struct BuilderView<S, C, R> {
    pub inner_store: Option<GoogleCloudStorage<S, C>>,
    pub inner_builder: GoogleCloudStorageBuilder<R>,
    pub grpc_endpoint: Option<String>,
}

impl<S, C, R> View for GoogleCloudStorageRapidBuilder<S, C, R> {
    type V = BuilderView<S, C, R>;

    closed spec fn view(&self) -> BuilderView<S, C, R> {
        BuilderView {
            inner_store: self.inner_store,
            inner_builder: self.inner_builder,
            grpc_endpoint: self.grpc_endpoint,
        }
    }
}

impl<S, C, R> Clone for GoogleCloudStorageRapidBuilder<S, C, R> {
    fn clone(&self) -> (builder: GoogleCloudStorageRapidBuilder<S, C, R>)
        ensures
            builder == *self,
    {
        GoogleCloudStorageRapidBuilder {
            inner_store: self.inner_store.clone(),
            inner_builder: self.inner_builder.clone(),
            grpc_endpoint: self.grpc_endpoint.clone(),
        }
    }
}

impl<S, C, R> Default for GoogleCloudStorageRapidBuilder<S, C, R> {
    /// A builder with default settings.
    fn default() -> (builder: GoogleCloudStorageRapidBuilder<S, C, R>)
        ensures
            builder@ == (BuilderView::<S, C, R> {
                inner_store: None,
                inner_builder: unset(),
                grpc_endpoint: None,
            }),
    {
        Self::new()
    }
}

impl<S, C, R> GoogleCloudStorageRapidBuilder<S, C, R> {
    /// A builder with default settings.
    pub fn new() -> (builder: GoogleCloudStorageRapidBuilder<S, C, R>)
        ensures
            builder@ == (BuilderView::<S, C, R> {
                inner_store: None,
                inner_builder: unset(),
                grpc_endpoint: None,
            }),
    {
        GoogleCloudStorageRapidBuilder {
            inner_store: None,
            inner_builder: GoogleCloudStorageBuilder::new(),
            grpc_endpoint: None,
        }
    }

    /// A builder with the settings that the environment gives: those of the
    /// inner store, and the endpoint where it names one.
    pub fn from_env(
        inner_builder: GoogleCloudStorageBuilder<R>,
        grpc_endpoint: Option<String>,
    ) -> (builder: GoogleCloudStorageRapidBuilder<S, C, R>)
        ensures
            builder@ == (BuilderView::<S, C, R> { inner_store: None, inner_builder, grpc_endpoint }),
    {
        GoogleCloudStorageRapidBuilder { inner_store: None, inner_builder, grpc_endpoint }
    }

    /// Uses a store that is already built, with its bucket and credentials.
    pub fn with_inner_store(self, store: GoogleCloudStorage<S, C>) -> (builder:
        GoogleCloudStorageRapidBuilder<S, C, R>)
        ensures
            builder@ == (BuilderView::<S, C, R> { inner_store: Some(store), ..self@ }),
    {
        let mut builder = self;
        builder.inner_store = Some(store);
        builder
    }

    /// Sets the name of the bucket.
    pub fn with_bucket_name(self, name: String) -> (builder: GoogleCloudStorageRapidBuilder<S, C, R>)
        ensures
            builder@ == (BuilderView::<S, C, R> {
                inner_builder: GoogleCloudStorageBuilder {
                    bucket_name: Some(name),
                    ..self@.inner_builder
                },
                ..self@
            }),
    {
        let mut builder = self;
        builder.inner_builder.bucket_name = Some(name);
        builder
    }

    /// Sets the service account key, a JSON document.
    pub fn with_service_account_key(self, key: String) -> (builder:
        GoogleCloudStorageRapidBuilder<S, C, R>)
        ensures
            builder@ == (BuilderView::<S, C, R> {
                inner_builder: GoogleCloudStorageBuilder {
                    service_account_key: Some(key),
                    ..self@.inner_builder
                },
                ..self@
            }),
    {
        let mut builder = self;
        builder.inner_builder.service_account_key = Some(key);
        builder
    }

    /// Sets the path to a file with a service account key.
    pub fn with_service_account_path(self, path: String) -> (builder:
        GoogleCloudStorageRapidBuilder<S, C, R>)
        ensures
            builder@ == (BuilderView::<S, C, R> {
                inner_builder: GoogleCloudStorageBuilder {
                    service_account_path: Some(path),
                    ..self@.inner_builder
                },
                ..self@
            }),
    {
        let mut builder = self;
        builder.inner_builder.service_account_path = Some(path);
        builder
    }

    /// Sets the path to the application credentials.
    pub fn with_application_credentials(self, path: String) -> (builder:
        GoogleCloudStorageRapidBuilder<S, C, R>)
        ensures
            builder@ == (BuilderView::<S, C, R> {
                inner_builder: GoogleCloudStorageBuilder {
                    application_credentials: Some(path),
                    ..self@.inner_builder
                },
                ..self@
            }),
    {
        let mut builder = self;
        builder.inner_builder.application_credentials = Some(path);
        builder
    }

    /// Sets the endpoint of the gRPC service, in place of the default one.
    pub fn with_grpc_endpoint(self, endpoint: String) -> (builder:
        GoogleCloudStorageRapidBuilder<S, C, R>)
        ensures
            builder@ == (BuilderView::<S, C, R> { grpc_endpoint: Some(endpoint), ..self@ }),
    {
        let mut builder = self;
        builder.grpc_endpoint = Some(endpoint);
        builder
    }

    /// Builds the store. `build_inner` builds the inner store from its
    /// configuration; it is called only where none was given. The bucket and
    /// the credentials are those of the inner store.
    pub fn build<F>(self, build_inner: F) -> (r: Result<GoogleCloudStorageRapid<S, C>, Error>) where
        F: FnOnce(GoogleCloudStorageBuilder<R>) -> Result<GoogleCloudStorage<S, C>, Error>,

        requires
            self@.inner_store is None ==> build_inner.requires((self@.inner_builder,)),
        ensures
            match self@.inner_store {
                Some(inner) => crate::store::is_store_of(
                    inner,
                    crate::store::endpoint_text(self@.grpc_endpoint),
                    r,
                ),
                None => exists|built: Result<GoogleCloudStorage<S, C>, Error>| #[trigger]
                    build_inner.ensures((self@.inner_builder,), built) && match built {
                        Ok(inner) => crate::store::is_store_of(
                            inner,
                            crate::store::endpoint_text(self@.grpc_endpoint),
                            r,
                        ),
                        Err(error) => r == Err::<GoogleCloudStorageRapid<S, C>, Error>(error),
                    },
            },
    {
        let inner = match self.inner_store {
            Some(inner) => inner,
            None => match build_inner(self.inner_builder) {
                Ok(inner) => inner,
                Err(error) => return Err(error),
            },
        };
        GoogleCloudStorageRapid::from_inner(inner, self.grpc_endpoint)
    }
}

/// In a configuration in which nothing is set, every setting is missing.
pub proof fn law_unset_sets_nothing<R>()
    ensures
        unset::<R>().bucket_name is None,
        unset::<R>().service_account_key is None,
        unset::<R>().service_account_path is None,
        unset::<R>().application_credentials is None,
        unset::<R>().rest is None,
{
}

} // verus!
