//! Descriptors: the static identities of services and of their methods.
//!
//! Descriptors are meant to be emitted by code generation, one service
//! descriptor and one closed method enumeration per service, but they can be
//! written by hand as well.
use vstd::prelude::*;

verus! {

/// A descriptor for an available RPC service.
pub trait ServiceDescriptor {
    /// The method descriptors of this service.
    type Method: MethodDescriptor;

    /// The service's name as used in code.
    spec fn spec_name() -> Seq<char>;

    /// The service's protobuf name.
    spec fn spec_proto_name() -> Seq<char>;

    /// The service's methods, in declaration order.
    spec fn method_list() -> Seq<Self::Method>;

    /// The name of the service, used in code and for human readability.
    fn name() -> (r: &'static str)
        ensures
            r@ == Self::spec_name(),
    ;

    /// The raw protobuf name of the service.
    fn proto_name() -> (r: &'static str)
        ensures
            r@ == Self::spec_proto_name(),
    ;

    /// All of the methods of the service; every method value is among them.
    fn methods() -> (r: Vec<Self::Method>)
        ensures
            r@ == Self::method_list(),
            forall|m: Self::Method| #[trigger] Self::method_list().contains(m),
    ;
}

/// A descriptor for a method available on an RPC service.
pub trait MethodDescriptor: Copy {
    /// The method's name as used in code.
    spec fn spec_name(&self) -> Seq<char>;

    /// The method's protobuf name.
    spec fn spec_proto_name(&self) -> Seq<char>;

    /// The protobuf name of the method's input type.
    spec fn spec_input_proto_type(&self) -> Seq<char>;

    /// The protobuf name of the method's output type.
    spec fn spec_output_proto_type(&self) -> Seq<char>;

    /// The name of the method, used in code and for human readability.
    fn name(&self) -> (r: &'static str)
        ensures
            r@ == self.spec_name(),
    ;

    /// The raw protobuf name of the method.
    fn proto_name(&self) -> (r: &'static str)
        ensures
            r@ == self.spec_proto_name(),
    ;

    /// The raw protobuf name of the input type that this method accepts.
    fn input_proto_type(&self) -> (r: &'static str)
        ensures
            r@ == self.spec_input_proto_type(),
    ;

    /// The raw protobuf name of the output type that this method produces.
    fn output_proto_type(&self) -> (r: &'static str)
        ensures
            r@ == self.spec_output_proto_type(),
    ;
}

} // verus!
