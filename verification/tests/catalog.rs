use cloudtui::cloud::aws::{AwsProvider, Ec2, Instance, Kinesis, Resources, Services, Stream};
use cloudtui::resource::{resource_display_names, Resource, ResourceDescription};
use cloudtui::service::{Construct, GetItems, ServiceKind};

#[test]
fn service_names_in_order() {
    let names = Services::get_items();
    assert_eq!(names, vec!["Kinesis".to_string(), "EC2".to_string()]);
}

#[test]
fn resource_names_in_order() {
    let names = Resources::get_items();
    assert_eq!(names, vec!["Streams".to_string()]);
}

#[test]
fn every_listed_service_name_constructs() {
    for name in Services::get_items() {
        assert!(Services::construct(&name).is_ok());
    }
}

#[test]
fn every_listed_resource_name_constructs() {
    for name in Resources::get_items() {
        assert!(Resources::construct(&name).is_ok());
    }
}

#[test]
fn construct_kinesis() {
    let svc = Services::construct("Kinesis").unwrap();
    assert!(matches!(svc, Services::Kinesis(_)));
}

#[test]
fn construct_ec2() {
    let svc = Services::construct("EC2").unwrap();
    assert!(matches!(svc, Services::Ec2(_)));
}

#[test]
fn construct_unknown_service_is_recoverable() {
    let err = Services::construct("S3").unwrap_err();
    assert_eq!(err.name, "S3");
    let err = Services::construct("Ec2").unwrap_err();
    assert_eq!(err.name, "Ec2");
    let err = Services::construct("").unwrap_err();
    assert_eq!(err.name, "");
}

#[test]
fn construct_unknown_resource_is_recoverable() {
    let err = Resources::construct("Stream").unwrap_err();
    assert_eq!(err.name, "Stream");
    assert!(Resources::construct("Streams").is_ok());
}

#[test]
fn kinesis_owns_streams() {
    let kinds = Kinesis::new().get_resources();
    assert_eq!(kinds.len(), 1);
    assert_eq!(kinds[0].0, "Stream");
}

#[test]
fn ec2_owns_instances() {
    let kinds = Ec2::new().get_resources();
    assert_eq!(kinds.len(), 1);
    assert_eq!(kinds[0].0, "Instances");
}

#[test]
fn services_dispatch_child_kinds() {
    let kinesis = Services::construct("Kinesis").unwrap();
    assert_eq!(kinesis.get_resources()[0].0, "Stream");
    let ec2 = Services::construct("EC2").unwrap();
    assert_eq!(ec2.get_resources()[0].0, "Instances");
}

#[test]
fn provider_builds() {
    let _provider = AwsProvider::new();
}

#[test]
fn stream_and_instance_names() {
    let stream = Stream::new("orders".to_string());
    assert_eq!(stream.get_name(), "orders");
    let instance = Instance::new("r-12345".to_string());
    assert_eq!(instance.get_name(), "r-12345");
}

#[test]
fn display_names_of_listed_resources() {
    let streams = vec![Stream::new("a".to_string()), Stream::new("b".to_string())];
    let names = resource_display_names(&streams);
    assert_eq!(names, vec!["a".to_string(), "b".to_string()]);
}

#[test]
fn descriptor_holds_id_and_name() {
    let desc: ResourceDescription<Stream> =
        ResourceDescription::new("orders".to_string(), Some("orders".to_string()));
    assert_eq!(desc.id(), "orders");
    assert_eq!(desc.display_name(), &Some("orders".to_string()));
    assert!(desc.get_prop("shards").is_none());
}

#[test]
fn descriptor_props_insert_and_overwrite() {
    let mut desc: ResourceDescription<Stream> =
        ResourceDescription::new("orders".to_string(), None);
    desc.set_prop("shards".to_string(), "2".to_string());
    desc.set_prop("status".to_string(), "ACTIVE".to_string());
    assert_eq!(desc.get_prop("shards"), Some(&"2".to_string()));
    assert_eq!(desc.get_prop("status"), Some(&"ACTIVE".to_string()));
    desc.set_prop("shards".to_string(), "4".to_string());
    assert_eq!(desc.get_prop("shards"), Some(&"4".to_string()));
    assert_eq!(desc.get_prop("status"), Some(&"ACTIVE".to_string()));
    assert!(desc.get_prop("missing").is_none());
}
