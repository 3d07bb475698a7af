use trace_layer::Describe;
use trace_layer::GrpcErrorsAsFailures;
use trace_layer::MakeClassifier;
use trace_layer::ServerErrorsAsFailures;
use trace_layer::SharedClassifier;
use trace_layer::TraceLayer;

#[derive(Clone, Copy, PartialEq, Eq, Debug)]
struct ClassifierA;

impl Describe for ClassifierA {
    fn describe_spec(&self) -> vstd::seq::Seq<char> {
        panic!()
    }

    fn describe(&self) -> String {
        "ClassifierA".to_string()
    }
}

impl MakeClassifier<()> for ClassifierA {
    type Classifier = ClassifierA;

    fn produces(&self, _classifier: ClassifierA) -> bool {
        panic!()
    }

    fn make_classifier(&self) -> ClassifierA {
        *self
    }
}

#[derive(Clone, Copy, PartialEq, Eq, Debug)]
struct CustomSpan;

impl Describe for CustomSpan {
    fn describe_spec(&self) -> vstd::seq::Seq<char> {
        panic!()
    }

    fn describe(&self) -> String {
        "CustomSpan".to_string()
    }
}

#[derive(Clone, Copy, PartialEq, Eq, Debug)]
struct CustomRequestHook;

impl Describe for CustomRequestHook {
    fn describe_spec(&self) -> vstd::seq::Seq<char> {
        panic!()
    }

    fn describe(&self) -> String {
        "CustomRequestHook".to_string()
    }
}

#[derive(Clone, Copy, PartialEq, Eq, Debug)]
struct CustomResponseHook;

impl Describe for CustomResponseHook {
    fn describe_spec(&self) -> vstd::seq::Seq<char> {
        panic!()
    }

    fn describe(&self) -> String {
        "CustomResponseHook".to_string()
    }
}

#[derive(Clone, Copy, PartialEq, Eq, Debug)]
struct CustomChunkHook;

impl Describe for CustomChunkHook {
    fn describe_spec(&self) -> vstd::seq::Seq<char> {
        panic!()
    }

    fn describe(&self) -> String {
        "CustomChunkHook".to_string()
    }
}

#[derive(Clone, Copy, PartialEq, Eq, Debug)]
struct CustomEosHook;

impl Describe for CustomEosHook {
    fn describe_spec(&self) -> vstd::seq::Seq<char> {
        panic!()
    }

    fn describe(&self) -> String {
        "CustomEosHook".to_string()
    }
}

#[derive(Clone, Copy, PartialEq, Eq, Debug)]
struct CustomFailureHook;

impl Describe for CustomFailureHook {
    fn describe_spec(&self) -> vstd::seq::Seq<char> {
        panic!()
    }

    fn describe(&self) -> String {
        "CustomFailureHook".to_string()
    }
}

const DEFAULT_HOOK_FIELDS: &str = "make_span: DefaultMakeSpan, on_request: DefaultOnRequest, \
     on_response: DefaultOnResponse, on_body_chunk: DefaultOnBodyChunk, \
     on_eos: DefaultOnEos, on_failure: DefaultOnFailure }";

#[test]
fn new_fills_every_hook_with_its_default() {
    let cfg = TraceLayer::<ClassifierA, ()>::new(ClassifierA);
    assert_eq!(
        cfg.diagnostic(),
        format!("TraceLayer {{ make_classifier: ClassifierA, {}", DEFAULT_HOOK_FIELDS)
    );
}

#[test]
fn preset_http_diagnostic_is_exact() {
    let cfg = TraceLayer::<_, ()>::new_for_http();
    assert_eq!(
        cfg.diagnostic(),
        format!(
            "TraceLayer {{ make_classifier: SharedClassifier(ServerErrorsAsFailures), {}",
            DEFAULT_HOOK_FIELDS
        )
    );
}

#[test]
fn preset_grpc_diagnostic_is_exact() {
    let cfg = TraceLayer::<_, ()>::new_for_grpc();
    assert_eq!(
        cfg.diagnostic(),
        format!(
            "TraceLayer {{ make_classifier: SharedClassifier(GrpcErrorsAsFailures), {}",
            DEFAULT_HOOK_FIELDS
        )
    );
}

#[test]
fn preset_classifier_descriptions_differ() {
    let http = SharedClassifier::new(ServerErrorsAsFailures::new());
    let grpc = SharedClassifier::new(GrpcErrorsAsFailures::new());
    let custom = ClassifierA;
    assert_ne!(http.describe(), grpc.describe());
    assert_ne!(http.describe(), custom.describe());
    assert_ne!(grpc.describe(), custom.describe());
}

#[test]
fn mutator_permutations_agree() {
    let cfg_forward = TraceLayer::<ClassifierA, ()>::new(ClassifierA)
        .make_span_with(CustomSpan)
        .on_request(CustomRequestHook)
        .on_response(CustomResponseHook)
        .on_body_chunk(CustomChunkHook)
        .on_eos(CustomEosHook)
        .on_failure(CustomFailureHook);
    let cfg_reverse = TraceLayer::<ClassifierA, ()>::new(ClassifierA)
        .on_failure(CustomFailureHook)
        .on_eos(CustomEosHook)
        .on_body_chunk(CustomChunkHook)
        .on_response(CustomResponseHook)
        .on_request(CustomRequestHook)
        .make_span_with(CustomSpan);
    let cfg_mixed = TraceLayer::<ClassifierA, ()>::new(ClassifierA)
        .on_response(CustomResponseHook)
        .make_span_with(CustomSpan)
        .on_failure(CustomFailureHook)
        .on_request(CustomRequestHook)
        .on_eos(CustomEosHook)
        .on_body_chunk(CustomChunkHook);
    let expected = "TraceLayer { make_classifier: ClassifierA, make_span: CustomSpan, \
         on_request: CustomRequestHook, on_response: CustomResponseHook, \
         on_body_chunk: CustomChunkHook, on_eos: CustomEosHook, \
         on_failure: CustomFailureHook }";
    assert_eq!(cfg_forward.diagnostic(), expected);
    assert_eq!(cfg_reverse.diagnostic(), expected);
    assert_eq!(cfg_mixed.diagnostic(), expected);
}

#[test]
fn replacing_failure_hook_keeps_other_slots() {
    let cfg = TraceLayer::<ClassifierA, ()>::new(ClassifierA);
    let cfg2 = cfg.on_failure(CustomFailureHook);
    assert_eq!(cfg2.make_classifier, ClassifierA);
    assert_eq!(cfg2.on_failure, CustomFailureHook);
    assert_eq!(
        cfg2.diagnostic(),
        "TraceLayer { make_classifier: ClassifierA, make_span: DefaultMakeSpan, \
         on_request: DefaultOnRequest, on_response: DefaultOnResponse, \
         on_body_chunk: DefaultOnBodyChunk, on_eos: DefaultOnEos, \
         on_failure: CustomFailureHook }"
    );
}

#[test]
fn two_decorators_from_one_configuration() {
    let cfg = TraceLayer::<_, ()>::new_for_http();
    let d1 = cfg.layer(10i32);
    let d2 = cfg.layer(20i32);
    assert_eq!(d1.config_diagnostic(), cfg.diagnostic());
    assert_eq!(d2.config_diagnostic(), cfg.diagnostic());
    assert_eq!(d1.config_diagnostic(), d2.config_diagnostic());
    assert_ne!(d1.inner, d2.inner);
    assert_eq!(*d1.get_ref(), 10i32);
    assert_eq!(*d2.get_ref(), 20i32);
}

#[test]
fn clone_preserves_diagnostic() {
    let cfg = TraceLayer::<ClassifierA, ()>::new(ClassifierA).on_request(CustomRequestHook);
    let cfg2 = cfg.clone();
    assert_eq!(cfg.diagnostic(), cfg2.diagnostic());
}

#[test]
fn shared_classifier_hands_out_copies() {
    let factory = SharedClassifier::new(ClassifierA);
    let per_request = MakeClassifier::<()>::make_classifier(&factory);
    assert_eq!(per_request, ClassifierA);
    assert_eq!(factory.classifier, ClassifierA);
}

#[test]
fn decorator_keeps_custom_hooks() {
    let cfg = TraceLayer::<_, ()>::new_for_grpc().on_eos(CustomEosHook);
    let d = cfg.layer("svc");
    assert_eq!(
        d.config_diagnostic(),
        "TraceLayer { make_classifier: SharedClassifier(GrpcErrorsAsFailures), \
         make_span: DefaultMakeSpan, on_request: DefaultOnRequest, \
         on_response: DefaultOnResponse, on_body_chunk: DefaultOnBodyChunk, \
         on_eos: CustomEosHook, on_failure: DefaultOnFailure }"
    );
    assert_eq!(*d.get_ref(), "svc");
}
