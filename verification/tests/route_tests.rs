use rpc_gateway::echo::{echo_json, echo_json_extractor, nested_function, EchoJSONExtractorValue};
use rpc_gateway::errors::AppError;
use rpc_gateway::greeter::{u64_to_string, MyGreeter};
use rpc_gateway::handlers::{greeting_rpc, my_rpc, GreetingRpcParams, MyRpcParams};
use rpc_gateway::streams::{chunk_bytes, concat_chunks};

#[test]
fn test_echo_json() {
    let payload = "{\"message\":\"hello\",\"number\":42}".to_string();
    assert_eq!(echo_json(payload.clone()), payload);
    assert_eq!(nested_function(), "i am a nested function");
}

#[test]
fn test_echo_json_extractor() {
    let valid = EchoJSONExtractorValue { name: "Alice".to_string() };
    match echo_json_extractor(valid) {
        Ok(back) => assert_eq!(back.name, "Alice"),
        Err(_) => panic!("a five-character name passes validation"),
    }
    let too_long = EchoJSONExtractorValue { name: "ThisNameIsTooLong".to_string() };
    match echo_json_extractor(too_long) {
        Ok(_) => panic!("a seventeen-character name fails validation"),
        Err(e) => assert_eq!(e.status_code(), 400),
    }
    let too_short = EchoJSONExtractorValue { name: "Al".to_string() };
    assert!(echo_json_extractor(too_short).is_err());
    let boundaries = ["Bob", "TenLetters"];
    for name in boundaries {
        let value = EchoJSONExtractorValue { name: name.to_string() };
        assert!(echo_json_extractor(value).is_ok());
    }
}

#[test]
fn test_validation_error_message() {
    let value = EchoJSONExtractorValue { name: "".to_string() };
    match value.validate() {
        Ok(()) => panic!("an empty name fails validation"),
        Err(m) => assert_eq!(m, "name length must be between 3 and 10 characters"),
    }
    match echo_json_extractor(value) {
        Err(AppError::ValidationError { message }) => {
            assert_eq!(message, "name length must be between 3 and 10 characters")
        }
        _ => panic!("validation failures map to a validation error"),
    }
}

#[test]
fn test_my_rpc_logic() {
    let ok = my_rpc(MyRpcParams { name: "Alice".to_string() });
    assert_eq!(ok.unwrap().message, "Hello, Alice!");
    let err = my_rpc(MyRpcParams { name: "error".to_string() });
    assert_eq!(err.unwrap_err().message, "Internal error");
}

#[test]
fn test_greeting_rpc_logic() {
    let spanish = greeting_rpc(GreetingRpcParams {
        name: "Bob".to_string(),
        language: "Spanish".to_string(),
    });
    assert_eq!(spanish.greeting, "\u{a1}Hola, Bob!");
    assert!(spanish.translated);
    let english = greeting_rpc(GreetingRpcParams {
        name: "Bob".to_string(),
        language: "ENGLISH".to_string(),
    });
    assert_eq!(english.greeting, "Hello, Bob!");
    assert!(!english.translated);
    let french = greeting_rpc(GreetingRpcParams {
        name: "Bob".to_string(),
        language: "french".to_string(),
    });
    assert_eq!(french.greeting, "Bonjour, Bob!");
    assert!(french.translated);
    let unknown = greeting_rpc(GreetingRpcParams {
        name: "Bob".to_string(),
        language: "latin".to_string(),
    });
    assert_eq!(unknown.greeting, "Hello, Bob!");
    assert!(unknown.translated);
}

#[test]
fn test_grpc_hello() {
    let greeter = MyGreeter::default();
    let reply = greeter.say_hello(&"World".to_string());
    assert_eq!(reply, "Hello World!");
}

#[test]
fn test_grpc_stream_hello() {
    let greeter = MyGreeter::default();
    let names = vec!["Alice".to_string(), "Bob".to_string(), "Charlie".to_string()];
    let replies = greeter.stream_hello(&names);
    assert_eq!(
        replies,
        vec![
            "Hello Alice! - 0".to_string(),
            "Hello Bob! - 1".to_string(),
            "Hello Charlie! - 2".to_string(),
        ]
    );
}

#[test]
fn test_u64_rendering() {
    assert_eq!(u64_to_string(0), "0");
    assert_eq!(u64_to_string(7), "7");
    assert_eq!(u64_to_string(10), "10");
    assert_eq!(u64_to_string(1234567890), "1234567890");
    assert_eq!(u64_to_string(u64::MAX), "18446744073709551615");
}

#[test]
fn test_sse_endpoint() {
    // The event-stream route sends its message in three-byte chunks.
    let bytes = "Hello, World!\n".as_bytes().to_vec();
    let chunks = chunk_bytes(&bytes, 3);
    assert_eq!(chunks.len(), 5);
    assert_eq!(chunks[0], b"Hel".to_vec());
    assert_eq!(chunks[4], b"!\n".to_vec());
    let mut accumulated = String::new();
    for chunk in &chunks {
        accumulated.push_str(std::str::from_utf8(chunk).unwrap());
    }
    assert_eq!(accumulated, "Hello, World!\n");
}

#[test]
fn test_stream_endpoint() {
    let bytes = "Hello, World!\n".as_bytes().to_vec();
    let chunks = chunk_bytes(&bytes, 3);
    for chunk in chunks.iter().take(chunks.len() - 1) {
        assert_eq!(chunk.len(), 3);
    }
    assert_eq!(concat_chunks(&chunks), bytes);
}

#[test]
fn test_stream_handler() {
    // The body collector reassembles whatever chunks arrived.
    let chunks = vec![
        b"Hello ".to_vec(),
        b"from the".to_vec(),
        b" stream!".to_vec(),
    ];
    let body = concat_chunks(&chunks);
    assert_eq!(String::from_utf8(body).unwrap(), "Hello from the stream!");
    assert_eq!(concat_chunks(&Vec::new()), Vec::<u8>::new());
}

#[test]
fn test_chunking_round_trip() {
    for size in 1..=6 {
        let bytes: Vec<u8> = (0..=40).collect();
        let chunks = chunk_bytes(&bytes, size);
        assert_eq!(concat_chunks(&chunks), bytes);
    }
    let empty: Vec<u8> = Vec::new();
    assert_eq!(chunk_bytes(&empty, 4).len(), 0);
}
