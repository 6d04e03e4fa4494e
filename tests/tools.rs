use term_dashboard::agent::AgentId;
use term_dashboard::dashboard::{ChatMessage, ChatPanel, MessageDirection, TestMode};
use term_dashboard::plan::{Plan, PlanStep, PlanStepStatus};
use term_dashboard::sources::WhatsAppConfig;
use term_dashboard::toolcall::ShellToolcall;
use term_dashboard::tts_service::{ServiceState, TTSCommand, TTSResponse};
use term_dashboard::tts_queue::{TTSQueue, TTSRequest, MAX_QUEUE_SIZE};
use term_dashboard::tts::{TTSConfig, AudioPlayer, ModelCache, PiperModel, TtsError, VoiceMetadata, VoiceQuality};

fn voice(id: &str) -> VoiceMetadata {
    VoiceMetadata {
        id: id.to_string(),
        name: "Voice".to_string(),
        language: "en-US".to_string(),
        quality: VoiceQuality::Medium,
        sample_rate: 22050,
        onnx_path: format!("/models/{}.onnx", id),
        config_path: format!("/models/{}.json", id),
    }
}

fn args(v: &[&str]) -> Vec<String> {
    v.iter().map(|s| s.to_string()).collect()
}

#[test]
fn test_audio_player_creation() {
    let player = AudioPlayer::new();
    assert!(!player.is_playing());
}

#[test]
fn audio_player_start_and_stop() {
    let mut player = AudioPlayer::new();
    player.start();
    player.pause();
    assert!(player.is_playing());
    player.resume();
    player.stop();
    assert!(!player.is_playing());
}

#[test]
fn test_model_cache_creation() {
    let cache = ModelCache::new();
    assert!(cache.list_voices().is_empty());
}

#[test]
fn model_cache_loads_registered_voices() {
    let mut cache = ModelCache::new();
    cache.register(voice("default"));
    cache.register(voice("other"));
    cache.register(voice("default"));
    assert_eq!(cache.list_voices().len(), 2);
    assert_eq!(cache.load_model("missing", true, true).unwrap_err(), TtsError::VoiceNotFound);
    assert_eq!(cache.load_model("default", false, true).unwrap_err(), TtsError::ModelFileNotFound);
    assert_eq!(cache.load_model("default", true, false).unwrap_err(), TtsError::ConfigFileNotFound);
    let m = cache.get_or_load("default", true, true).unwrap();
    assert_eq!(m.id, "default");
    assert_eq!(m.sample_rate, 22050);
    let again = cache.get_or_load("default", false, false).unwrap();
    assert_eq!(again.id, "default");
    let mut slow = voice("slow");
    slow.sample_rate = 16000;
    cache.register(slow);
    assert_eq!(cache.get_or_load("slow", true, false).unwrap_err(), TtsError::ConfigFileNotFound);
    assert_eq!(cache.get_or_load("nobody", true, true).unwrap_err(), TtsError::VoiceNotFound);
    let m = cache.get_or_load("slow", true, true).unwrap();
    assert_eq!(m.sample_rate, 16000);
    assert!(PiperModel::load(&voice("x"), true, true).is_ok());
}

#[test]
fn test_whatsapp_config_default() {
    let config = WhatsAppConfig::default();
    assert!(config.auto_save_session);
    assert!(config.session_path.contains("whatsapp_session"));
}

#[test]
fn whatsapp_config_in_directory() {
    let config = WhatsAppConfig::in_data_dir("/data");
    assert_eq!(config.session_path, "/data/chat/whatsapp_session.bin");
}

#[test]
fn plan_step_starts_pending() {
    let s = PlanStep::new("write tests".to_string());
    assert_eq!(s.description, "write tests");
    assert_eq!(s.status, PlanStepStatus::Pending);
    assert!(s.sub_steps.is_empty());
}

#[test]
fn shell_tool_timeouts() {
    assert_eq!(ShellToolcall::new().timeout_ms(), 30000);
    assert_eq!(ShellToolcall::with_timeout(500).timeout_ms(), 500);
}

#[test]
fn shell_tool_results() {
    let ok = ShellToolcall::result_of("out".to_string(), String::new(), true, Some(0));
    assert!(ok.success);
    assert_eq!(ok.output, "out");
    assert_eq!(ok.error, None);
    let bad = ShellToolcall::result_of("out".to_string(), "err".to_string(), false, Some(2));
    assert_eq!(bad.output, "out\nSTDERR:\nerr");
    assert_eq!(bad.error.as_deref(), Some("Command failed with exit code: Some(2)"));
    let killed = ShellToolcall::result_of(String::new(), String::new(), false, None);
    assert_eq!(killed.error.as_deref(), Some("Command failed with exit code: None"));
}

#[test]
fn test_mode_from_args() {
    let t = TestMode::from_args(&args(&["dash", "--test", "--timeout", "5", "--exit-on", "ready"]));
    assert!(t.enabled);
    assert_eq!(t.timeout_secs, 5);
    assert_eq!(t.exit_message.as_deref(), Some("ready"));
    let d = TestMode::from_args(&args(&["dash", "--timeout", "soon", "--exit-on"]));
    assert!(!d.enabled);
    assert_eq!(d.timeout_secs, 30);
    assert_eq!(d.exit_message, None);
}

#[test]
fn test_mode_exit_conditions() {
    let mut t = TestMode::from_args(&args(&["dash", "--test", "--timeout", "2", "--exit-on", "done"]));
    assert!(!t.should_exit(2000));
    assert!(t.should_exit(2001));
    t.log("still working".to_string());
    assert!(!t.should_exit(10));
    t.log("all done now".to_string());
    assert!(t.should_exit(10));
    let mut off = TestMode::from_args(&args(&["dash"]));
    off.log("done".to_string());
    assert!(off.log_buffer.is_empty());
    assert!(!off.should_exit(1_000_000));
}

fn create_test_request(text: &str) -> TTSRequest {
    TTSRequest::new(text.to_string(), "test-voice".to_string(), 100)
}

#[test]
fn test_queue_creation() {
    let queue = TTSQueue::new();
    assert!(queue.is_empty());
    assert_eq!(queue.len(), 0);
}

#[test]
fn test_enqueue_dequeue() {
    let mut queue = TTSQueue::new();
    let req1 = create_test_request("Hello");
    let req2 = create_test_request("World");

    queue.enqueue(req1.duplicate()).unwrap();
    queue.enqueue(req2.duplicate()).unwrap();

    assert_eq!(queue.len(), 2);

    let dequeued1 = queue.dequeue().unwrap();
    assert_eq!(dequeued1.text, "Hello");

    let dequeued2 = queue.dequeue().unwrap();
    assert_eq!(dequeued2.text, "World");

    assert!(queue.is_empty());
}

#[test]
fn test_queue_limit() {
    let mut queue = TTSQueue::new();
    for i in 0..MAX_QUEUE_SIZE {
        let req = create_test_request(&format!("Message {}", i));
        queue.enqueue(req).unwrap();
    }
    let overflow_req = create_test_request("Overflow");
    assert!(queue.enqueue(overflow_req).is_err());
}

#[test]
fn test_clear_queue() {
    let mut queue = TTSQueue::new();
    for i in 0..5 {
        let req = create_test_request(&format!("Message {}", i));
        queue.enqueue(req).unwrap();
    }
    assert_eq!(queue.len(), 5);
    queue.clear();
    assert!(queue.is_empty());
}

#[test]
fn test_status() {
    let mut queue = TTSQueue::new();
    let req = create_test_request("Test");
    queue.enqueue(req).unwrap();
    let status = queue.status();
    assert_eq!(status.queue_length, 1);
    assert!(!status.playing);
}

#[test]
fn queue_current_request_and_errors() {
    let mut queue = TTSQueue::new();
    assert!(queue.dequeue().is_none());
    queue.enqueue(create_test_request("a")).unwrap();
    queue.set_playing(true);
    let taken = queue.dequeue().unwrap();
    let status = queue.status();
    assert_eq!(status.current.unwrap().message_id, taken.message_id);
    assert!(status.playing);
    queue.complete_current();
    let status = queue.status();
    assert!(status.current.is_none());
    assert!(!status.playing);
    for i in 0..MAX_QUEUE_SIZE {
        queue.enqueue(create_test_request(&format!("m{}", i))).unwrap();
    }
    assert_eq!(queue.enqueue(create_test_request("x")).unwrap_err(), "Queue is full (max 50)");
}

#[test]
fn request_speed_is_clamped() {
    assert_eq!(TTSRequest::new("a".to_string(), "v".to_string(), 10).speed_percent, 50);
    assert_eq!(TTSRequest::new("a".to_string(), "v".to_string(), 500).speed_percent, 200);
    assert_eq!(TTSRequest::new("a".to_string(), "v".to_string(), 120).speed_percent, 120);
}

#[test]
fn audio_dir_under_config() {
    assert_eq!(AudioPlayer::get_audio_dir("/home/u/.config/agent-dashboard"), "/home/u/.config/agent-dashboard/tts/audio");
}

#[test]
fn service_commands_and_jobs() {
    let mut svc = ServiceState::new();
    assert!(svc.start_next().is_none());
    let (answer, stop) = svc.handle(TTSCommand::Speak(create_test_request("one")));
    assert!(matches!(answer, Some(TTSResponse::Done)));
    assert!(!stop);
    svc.handle(TTSCommand::Speak(create_test_request("two")));
    let first = svc.start_next().unwrap();
    assert_eq!(first.text, "one");
    assert!(svc.start_next().is_none());
    match svc.handle(TTSCommand::GetStatus).0 {
        Some(TTSResponse::Status(s)) => {
            assert_eq!(s.queue_length, 1);
            assert_eq!(s.current.unwrap().text, "one");
            assert!(s.playing);
        }
        _ => panic!("expected a status"),
    }
    match svc.load_failed("Voice not found".to_string()) {
        TTSResponse::Error(e) => assert_eq!(e, "Voice not found"),
        _ => panic!("expected an error"),
    }
    let second = svc.start_next().unwrap();
    assert_eq!(second.text, "two");
    assert!(matches!(svc.handle(TTSCommand::Skip).0, Some(TTSResponse::Done)));
    assert!(svc.start_next().is_none());
    svc.handle(TTSCommand::Speak(create_test_request("three")));
    assert!(matches!(svc.handle(TTSCommand::ClearQueue).0, Some(TTSResponse::Done)));
    assert!(svc.start_next().is_none());
    let (answer, stop) = svc.handle(TTSCommand::Shutdown);
    assert!(answer.is_none());
    assert!(stop);
}

#[test]
fn chat_panel_sends_typed_text() {
    let mut panel = ChatPanel::new();
    panel.input = "   ".to_string();
    panel.send_message();
    assert!(panel.messages.is_empty());
    assert_eq!(panel.input, "   ");
    let agent = AgentId::new();
    panel.selected_agent = Some(agent);
    panel.input = "hello".to_string();
    panel.send_message();
    assert_eq!(panel.messages.len(), 1);
    assert_eq!(panel.messages[0].content, "hello");
    assert_eq!(panel.messages[0].agent_id, Some(agent));
    assert_eq!(panel.messages[0].direction, MessageDirection::ToAgent);
    assert!(panel.input.is_empty());
    panel.broadcast_mode = true;
    panel.input = "all".to_string();
    panel.send_message();
    assert_eq!(panel.messages[1].agent_id, None);
    assert_eq!(panel.messages[1].direction, MessageDirection::Broadcast);
    let reply = ChatMessage::new_agent_message(agent, "hi".to_string());
    assert_eq!(reply.direction, MessageDirection::FromAgent);
    assert_ne!(reply.id, panel.messages[0].id);
}

#[test]
fn plans_collect_steps() {
    let agent = AgentId::new();
    let mut plan = Plan::new(agent, "Release".to_string(), "Ship it".to_string());
    assert!(plan.steps.is_empty());
    plan.add_step(PlanStep::new("build".to_string()));
    plan.add_step(PlanStep::new("test".to_string()));
    assert_eq!(plan.steps.len(), 2);
    assert_eq!(plan.steps[1].description, "test");
    assert_eq!(plan.agent_id, agent);
}

#[test]
fn speech_settings() {
    let mut c = TTSConfig::in_config_dir("/home/u/.config");
    assert_eq!(c.model_directory, "/home/u/.config/agent-dashboard/tts/models");
    assert_eq!(c.selected_voice, "default");
    assert!(!c.enabled);
    c.playback_speed_percent = 300;
    c.validate();
    assert_eq!(c.playback_speed_percent, 200);
    c.playback_speed_percent = 10;
    c.validate();
    assert_eq!(c.playback_speed_percent, 50);
    let d = TTSConfig::default();
    assert!(d.model_directory.ends_with("models"));
}
