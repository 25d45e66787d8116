//! The AWS catalog: the closed set of connectors the dashboard can browse.
//!
//! The members here carry what the navigation reads of a connector — its
//! display name and the resource kinds it owns. The clients that talk to the
//! backends, and the calls they make, live outside the library and reach it
//! only as plain values.

use vstd::prelude::*;
use crate::resource::{resource_names, Resource, ResourceKind, ResourceType};
use crate::service::{names_view, str_eq, Construct, GetItems, ServiceKind, UnknownVariant};

verus! {

/// Provider handle for the AWS connectors; configuration and credentials are
/// loaded outside the library.
#[derive(Debug)]
pub struct AwsProvider {}

impl AwsProvider {
    /// Builds the provider handle.
    pub fn new() -> (provider: AwsProvider)
        ensures
            provider == (AwsProvider {  }),
    {
        AwsProvider {  }
    }
}

/// The Kinesis connector as the navigation sees it: a fully built catalog
/// member over its provider.
#[derive(Debug)]
pub struct Kinesis {
    /// The provider the connector was built over.
    pub provider: AwsProvider,
}

impl Kinesis {
    /// Builds the connector member.
    pub fn new() -> (svc: Kinesis)
        ensures
            svc == (Kinesis { provider: AwsProvider {  } }),
    {
        Kinesis { provider: AwsProvider::new() }
    }

    /// The resource kinds the Kinesis connector owns.
    pub fn get_resources(&self) -> (kinds: Vec<ResourceType>)
        ensures
            resource_names(kinds@) == seq!["Stream"@],
    {
        let mut kinds: Vec<ResourceType> = Vec::new();
        kinds.push(ResourceType("Stream".to_owned()));
        proof {
            assert(resource_names(kinds@) =~= seq!["Stream"@]);
        }
        kinds
    }
}

/// The EC2 connector as the navigation sees it: a fully built catalog member
/// over its provider.
#[derive(Debug)]
pub struct Ec2 {
    /// The provider the connector was built over.
    pub provider: AwsProvider,
}

impl Ec2 {
    /// Builds the connector member.
    pub fn new() -> (svc: Ec2)
        ensures
            svc == (Ec2 { provider: AwsProvider {  } }),
    {
        Ec2 { provider: AwsProvider::new() }
    }

    /// The resource kinds the EC2 connector owns.
    pub fn get_resources(&self) -> (kinds: Vec<ResourceType>)
        ensures
            resource_names(kinds@) == seq!["Instances"@],
    {
        let mut kinds: Vec<ResourceType> = Vec::new();
        kinds.push(ResourceType("Instances".to_owned()));
        proof {
            assert(resource_names(kinds@) =~= seq!["Instances"@]);
        }
        kinds
    }
}

/// The closed set of AWS service connectors.
#[derive(Debug)]
pub enum Services {
    /// The Kinesis connector.
    Kinesis(Kinesis),
    /// The EC2 connector.
    Ec2(Ec2),
}

impl GetItems for Services {
    open spec fn spec_items() -> Seq<Seq<char>> {
        seq!["Kinesis"@, "EC2"@]
    }

    fn get_items() -> (names: Vec<String>) {
        let mut names: Vec<String> = Vec::new();
        names.push("Kinesis".to_owned());
        names.push("EC2".to_owned());
        proof {
            assert(names_view(names@) =~= Self::spec_items());
        }
        names
    }
}

impl Construct for Services {
    open spec fn spec_construct(name: Seq<char>) -> Option<Services> {
        if name == "Kinesis"@ {
            Some(Services::Kinesis(Kinesis { provider: AwsProvider {  } }))
        } else if name == "EC2"@ {
            Some(Services::Ec2(Ec2 { provider: AwsProvider {  } }))
        } else {
            None
        }
    }

    proof fn lemma_construct_names(name: Seq<char>) {
        if Self::spec_items().contains(name) {
            let i = choose|i: int|
                0 <= i < Self::spec_items().len() && Self::spec_items()[i] == name;
        }
        if Self::spec_construct(name) is Some {
            if name == "Kinesis"@ {
                assert(Self::spec_items()[0] == name);
            } else {
                assert(Self::spec_items()[1] == name);
            }
        }
    }

    fn construct(name: &str) -> (result: Result<Services, UnknownVariant>) {
        if str_eq(name, "Kinesis") {
            Ok(Services::Kinesis(Kinesis::new()))
        } else if str_eq(name, "EC2") {
            Ok(Services::Ec2(Ec2::new()))
        } else {
            Err(UnknownVariant { name: name.to_owned() })
        }
    }
}

impl ServiceKind for Services {
    open spec fn spec_resources(&self) -> Seq<Seq<char>> {
        match self {
            Services::Kinesis(_) => seq!["Stream"@],
            Services::Ec2(_) => seq!["Instances"@],
        }
    }

    fn get_resources(&self) -> (kinds: Vec<ResourceType>) {
        match self {
            Services::Kinesis(svc) => svc.get_resources(),
            Services::Ec2(svc) => svc.get_resources(),
        }
    }
}

/// The Kinesis stream browser: the resource-level catalog member for streams.
#[derive(Debug)]
pub struct Streams {
    /// The connector it browses.
    pub svc: Kinesis,
}

impl Streams {
    /// Builds the stream browser.
    pub fn new() -> (browser: Streams)
        ensures
            browser == (Streams { svc: Kinesis { provider: AwsProvider {  } } }),
    {
        Streams { svc: Kinesis::new() }
    }
}

/// The closed set of resource-level members under the AWS services.
#[derive(Debug)]
pub enum Resources {
    /// The Kinesis stream browser.
    Streams(Streams),
}

impl GetItems for Resources {
    open spec fn spec_items() -> Seq<Seq<char>> {
        seq!["Streams"@]
    }

    fn get_items() -> (names: Vec<String>) {
        let mut names: Vec<String> = Vec::new();
        names.push("Streams".to_owned());
        proof {
            assert(names_view(names@) =~= Self::spec_items());
        }
        names
    }
}

impl Construct for Resources {
    open spec fn spec_construct(name: Seq<char>) -> Option<Resources> {
        if name == "Streams"@ {
            Some(Resources::Streams(Streams { svc: Kinesis { provider: AwsProvider {  } } }))
        } else {
            None
        }
    }

    proof fn lemma_construct_names(name: Seq<char>) {
        if Self::spec_items().contains(name) {
            let i = choose|i: int|
                0 <= i < Self::spec_items().len() && Self::spec_items()[i] == name;
        }
        if Self::spec_construct(name) is Some {
            assert(Self::spec_items()[0] == name);
        }
    }

    fn construct(name: &str) -> (result: Result<Resources, UnknownVariant>) {
        if str_eq(name, "Streams") {
            Ok(Resources::Streams(Streams::new()))
        } else {
            Err(UnknownVariant { name: name.to_owned() })
        }
    }
}

impl ResourceKind for Resources {

}

/// One Kinesis stream, named by its stream name.
pub struct Stream {
    name: String,
}

impl Stream {
    /// Wraps a stream name reported by the backend.
    pub fn new(name: String) -> (stream: Stream)
        ensures
            stream.spec_name() == name@,
    {
        Stream { name }
    }
}

impl Resource for Stream {
    type Id = String;

    closed spec fn spec_name(&self) -> Seq<char> {
        self.name@
    }

    fn get_name(&self) -> (name: String) {
        self.name.clone()
    }
}

/// One EC2 reservation entry, named by its reservation identifier.
pub struct Instance {
    name: String,
}

impl Instance {
    /// Wraps a reservation identifier reported by the backend.
    pub fn new(name: String) -> (instance: Instance)
        ensures
            instance.spec_name() == name@,
    {
        Instance { name }
    }
}

impl Resource for Instance {
    type Id = String;

    closed spec fn spec_name(&self) -> Seq<char> {
        self.name@
    }

    fn get_name(&self) -> (name: String) {
        self.name.clone()
    }
}

} // verus!
