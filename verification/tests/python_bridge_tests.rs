use mengxi::json::{embedding_request, ping_request, tags_request};
use mengxi::python_bridge::{
    candidate_tags, map_python_error, request_id_from_nanos, uuid_simple, AiError,
};

#[test]
fn test_ai_error_display_subprocess_not_found() {
    let err = AiError::SubprocessNotFound("python3 not found".into());
    assert_eq!(err.message(), "AI_SUBPROCESS_NOT_FOUND -- python3 not found");
}

#[test]
fn test_ai_error_display_crashed() {
    let err = AiError::SubprocessCrashed("segfault".into());
    assert_eq!(err.message(), "AI_SUBPROCESS_CRASHED -- segfault");
}

#[test]
fn test_ai_error_display_timeout() {
    let err = AiError::Timeout("30s exceeded".into());
    assert_eq!(err.message(), "AI_TIMEOUT -- 30s exceeded");
}

#[test]
fn test_ai_error_display_protocol_error() {
    let err = AiError::ProtocolError("bad json".into());
    assert_eq!(err.message(), "AI_PROTOCOL_ERROR -- bad json");
}

#[test]
fn test_ai_error_display_inference_error() {
    let err = AiError::InferenceError("model error".into());
    assert_eq!(err.message(), "AI_INFERENCE_ERROR -- model error");
}

#[test]
fn test_ai_error_display_model_not_found() {
    let err = AiError::ModelNotFound("model.onnx".into());
    assert_eq!(err.message(), "AI_MODEL_NOT_FOUND -- model.onnx");
}

#[test]
fn test_uuid_simple_format() {
    let id = uuid_simple();
    assert!(!id.is_empty());
    assert!(id.chars().all(|c| c.is_ascii_hexdigit()));
}

#[test]
fn test_uuid_simple_unique() {
    let id1 = uuid_simple();
    let id2 = uuid_simple();
    assert!(!id1.is_empty());
    assert!(!id2.is_empty());
}

#[test]
fn request_id_is_lower_hex_of_the_nanoseconds() {
    assert_eq!(request_id_from_nanos(255), "ff");
    assert_eq!(request_id_from_nanos(0), "0");
    assert_eq!(request_id_from_nanos(0x1a2b3c), "1a2b3c");
}

#[test]
fn test_map_python_error_file_not_found() {
    let err = map_python_error("FILE_NOT_FOUND", "model.onnx not found");
    assert!(matches!(err, AiError::ModelNotFound(msg) if msg == "model.onnx not found"));
}

#[test]
fn test_map_python_error_inference_error() {
    let err = map_python_error("INFERENCE_ERROR", "model failed");
    assert!(matches!(err, AiError::InferenceError(msg) if msg == "model failed"));
}

#[test]
fn test_map_python_error_timeout() {
    let err = map_python_error("TIMEOUT", "30s exceeded");
    assert!(matches!(err, AiError::Timeout(msg) if msg == "30s exceeded"));
}

#[test]
fn test_map_python_error_unknown() {
    let err = map_python_error("SOME_ERROR", "something went wrong");
    assert!(matches!(err, AiError::InferenceError(msg) if msg == "SOME_ERROR: something went wrong"));
}

#[test]
fn test_map_python_error_invalid_params() {
    let err = map_python_error("INVALID_PARAMS", "'top_n' must be a positive integer");
    assert!(matches!(err, AiError::ProtocolError(msg) if msg == "'top_n' must be a positive integer"));
}

#[test]
fn test_map_python_error_ai_model_not_found() {
    let err = map_python_error("AI_MODEL_NOT_FOUND", "clip model not found");
    assert!(matches!(err, AiError::ModelNotFound(msg) if msg == "clip model not found"));
}

#[test]
fn test_map_python_error_ai_inference_error() {
    let err = map_python_error("AI_INFERENCE_ERROR", "tag generation failed");
    assert!(matches!(err, AiError::InferenceError(msg) if msg == "tag generation failed"));
}

#[test]
fn test_parse_error_response() {
    let err = map_python_error("FILE_NOT_FOUND", "model.onnx not found");
    assert!(matches!(err, AiError::ModelNotFound(_)));
}

#[test]
fn test_request_json_format_with_model() {
    let text = embedding_request("test-123", "/path/to/image.png", "model.onnx");
    let request: serde_json::Value = serde_json::from_str(&text).unwrap();
    assert_eq!(request["method"], "generate_embedding");
    assert_eq!(request["request_id"], "test-123");
    assert_eq!(request["params"]["image_path"], "/path/to/image.png");
    assert_eq!(request["params"]["model_name"], "model.onnx");
}

#[test]
fn test_request_json_format_without_model() {
    let text = embedding_request("test-456", "/path/to/image.png", "");
    let request: serde_json::Value = serde_json::from_str(&text).unwrap();
    assert_eq!(request["params"]["model_name"], serde_json::Value::Null);
}

#[test]
fn test_ping_request_format() {
    let text = ping_request("test-789");
    assert_eq!(text, "{\"method\":\"ping\",\"params\":{},\"request_id\":\"test-789\"}");
    let request: serde_json::Value = serde_json::from_str(&text).unwrap();
    assert_eq!(request["method"], "ping");
    assert_eq!(request["params"], serde_json::Value::Object(serde_json::Map::new()));
}

#[test]
fn test_generate_tags_request_format() {
    let text = tags_request("test-tags-1", "/path/to/frame.dpx", "", 5, None);
    let request: serde_json::Value = serde_json::from_str(&text).unwrap();
    assert_eq!(request["method"], "generate_tags");
    assert_eq!(request["params"]["image_path"], "/path/to/frame.dpx");
    assert_eq!(request["params"]["top_n"], 5);
    assert_eq!(request["params"]["model_name"], serde_json::Value::Null);
}

#[test]
fn test_generate_tags_request_format_with_model() {
    let text = tags_request("test-tags-2", "/path/to/frame.dpx", "clip_vit_b32.onnx", 10, None);
    let request: serde_json::Value = serde_json::from_str(&text).unwrap();
    assert_eq!(request["params"]["model_name"], "clip_vit_b32.onnx");
    assert_eq!(request["params"]["top_n"], 10);
}

#[test]
fn test_parse_generate_tags_error_response() {
    let err = map_python_error("AI_MODEL_NOT_FOUND", "No ONNX model found in models directory");
    assert!(matches!(err, AiError::ModelNotFound(_)));
}

#[test]
fn test_generate_tags_with_calibration_request_format() {
    let personalized = vec!["cool blue shadows".to_string(), "SK-II skin".to_string()];
    let text = tags_request("test-tags-cal-1", "/path/to/frame.dpx", "", 5, candidate_tags(&personalized));
    let request: serde_json::Value = serde_json::from_str(&text).unwrap();
    assert_eq!(request["method"], "generate_tags");
    assert_eq!(request["params"]["image_path"], "/path/to/frame.dpx");
    assert_eq!(request["params"]["top_n"], 5);
    let ct = request["params"]["candidate_tags"].as_array().unwrap();
    assert_eq!(ct.len(), 2);
    assert_eq!(ct[0], "cool blue shadows");
    assert_eq!(ct[1], "SK-II skin");
}

#[test]
fn test_generate_tags_with_calibration_request_format_no_tags() {
    let personalized: Vec<String> = Vec::new();
    let text = tags_request("test-tags-cal-2", "/path/to/frame.dpx", "", 5, candidate_tags(&personalized));
    let request: serde_json::Value = serde_json::from_str(&text).unwrap();
    assert_eq!(request["method"], "generate_tags");
    assert!(request["params"].get("candidate_tags").is_none());
}

#[test]
fn json_strings_are_escaped() {
    let text = ping_request("a\"b\\c\n");
    let request: serde_json::Value = serde_json::from_str(&text).unwrap();
    assert_eq!(request["request_id"], "a\"b\\c\n");
}
