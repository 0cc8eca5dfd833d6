use jonect::server::audio::pulseaudio::state::{
    ContextAction, ContextState, PAEvent, PAEventAction, PAState, SinkListResult, sink_list_event,
};
use jonect::server::audio::pulseaudio::stream::{
    DrainStep, PARecordingStreamEvent, PAStreamManager, QuitAction, RecordingEventAction,
    StreamState, StreamStateAction, WriteResult,
};
use jonect::server::audio::pulseaudio::{handle_audio_server_event, AudioServerEvent, AudioThreadStep};
use jonect::server::audio::AudioEvent;

fn io_error() -> std::io::Error {
    std::io::Error::new(std::io::ErrorKind::BrokenPipe, "test")
}

#[test]
fn unwritten_data_is_buffered() {
    let mut m = PAStreamManager::new();
    m.record_stream_started();
    assert!(m.buffered_chunk().is_none());
    assert!(m.handle_data(&[1, 2, 3, 4], WriteResult::Written(1)).is_ok());
    assert_eq!(m.buffered_chunk(), Some(vec![2, 3, 4]));
    assert_eq!(m.buffered_len(), 3);
    assert!(m.handle_data(&[5, 6], WriteResult::WouldBlock).is_ok());
    assert_eq!(m.buffered_chunk(), Some(vec![2, 3, 4, 5, 6]));
}

#[test]
fn fully_written_data_is_not_buffered() {
    let mut m = PAStreamManager::new();
    assert!(m.handle_data(&[1, 2], WriteResult::Written(2)).is_ok());
    assert!(m.buffered_chunk().is_none());
}

#[test]
fn write_failure_is_returned_and_buffer_kept() {
    let mut m = PAStreamManager::new();
    assert!(m.handle_data(&[1, 2], WriteResult::WouldBlock).is_ok());
    match m.handle_data(&[3], WriteResult::Failed(io_error())) {
        Err(e) => assert_eq!(e.kind(), std::io::ErrorKind::BrokenPipe),
        Ok(()) => panic!("failure ignored"),
    }
    assert_eq!(m.buffered_chunk(), Some(vec![1, 2]));
}

#[test]
fn draining_writes_buffer_front_first() {
    let mut m = PAStreamManager::new();
    assert!(m.handle_data(&[1, 2, 3], WriteResult::WouldBlock).is_ok());
    assert!(matches!(m.drain_step(WriteResult::Written(2)), DrainStep::Continue));
    assert_eq!(m.buffered_chunk(), Some(vec![3]));
    assert!(matches!(m.drain_step(WriteResult::WouldBlock), DrainStep::Stop));
    assert!(matches!(m.drain_step(WriteResult::Failed(io_error())), DrainStep::Fail(_)));
    assert!(matches!(m.drain_step(WriteResult::Written(1)), DrainStep::Continue));
    assert!(m.buffered_chunk().is_none());
}

#[test]
fn no_audio_lost_with_empty_buffer() {
    // Bytes written plus bytes buffered are the data, in order.
    let mut m = PAStreamManager::new();
    let data = [9u8, 8, 7, 6, 5];
    assert!(m.handle_data(&data, WriteResult::Written(3)).is_ok());
    let mut seen = data[..3].to_vec();
    seen.extend(m.buffered_chunk().unwrap_or_default());
    assert_eq!(seen, data.to_vec());
}

#[test]
fn write_failure_disables_recording() {
    let mut m = PAStreamManager::new();
    m.record_stream_started();
    assert!(m.recording_write_failed());
    let e = PARecordingStreamEvent::Read(10);
    assert_eq!(m.handle_recording_stream_event(e), RecordingEventAction::Nothing);
    m.record_stream_started();
    assert_eq!(m.handle_recording_stream_event(PARecordingStreamEvent::Read(10)), RecordingEventAction::ReadData);
}

#[test]
fn stream_events() {
    let mut m = PAStreamManager::new();
    assert_eq!(m.handle_recording_stream_event(PARecordingStreamEvent::Moved), RecordingEventAction::Nothing);
    m.record_stream_started();
    assert_eq!(m.handle_recording_stream_event(PARecordingStreamEvent::Moved), RecordingEventAction::ReportMoved);
    assert_eq!(m.handle_recording_stream_event(PARecordingStreamEvent::StateChange), RecordingEventAction::CheckState);
    assert_eq!(m.handle_recording_stream_state_change(StreamState::Ready), StreamStateAction::ReportReady);
    assert_eq!(m.handle_recording_stream_state_change(StreamState::Failed), StreamStateAction::ReportFailed);
    assert_eq!(m.handle_recording_stream_state_change(StreamState::Creating), StreamStateAction::Nothing);
    assert!(m.stop_recording());
}

#[test]
fn quit_without_stream_is_ready_at_once() {
    let mut m = PAStreamManager::new();
    assert_eq!(m.request_quit(), QuitAction::SendQuitReady);
}

#[test]
fn quit_with_stream_completes_when_stream_ends() {
    let mut m = PAStreamManager::new();
    m.record_stream_started();
    assert_eq!(m.request_quit(), QuitAction::DisconnectStream);
    assert_eq!(
        m.handle_recording_stream_state_change(StreamState::Terminated),
        StreamStateAction::RecordingEnded { send_quit_ready: true }
    );
    assert!(!m.stop_recording());
}

#[test]
fn stream_end_without_quit_does_not_report_ready() {
    let mut m = PAStreamManager::new();
    m.record_stream_started();
    assert_eq!(
        m.handle_recording_stream_state_change(StreamState::Terminated),
        StreamStateAction::RecordingEnded { send_quit_ready: false }
    );
}

#[test]
fn recording_waits_for_ready_context_in_order() {
    let mut pa: PAState<u8, ()> = PAState::new();
    assert_eq!(pa.start_recording(None, 1, false, 44100), None);
    assert_eq!(pa.start_recording(Some("src".to_string()), 2, true, 48000), None);
    match pa.handle_pa_context_state_change(ContextState::Ready) {
        ContextAction::Ready(events) => {
            assert_eq!(events.len(), 2);
            assert!(matches!(events[0], AudioServerEvent::AudioEvent(AudioEvent::StartRecording { send_handle: 1, sample_rate: 44100 })));
            assert!(matches!(events[1], AudioServerEvent::AudioEvent(AudioEvent::StartRecording { send_handle: 2, sample_rate: 48000 })));
        }
        _ => panic!("context not ready"),
    }
    assert_eq!(pa.start_recording(None, 3, false, 44100), Some((3, None, false)));
}

#[test]
fn context_states() {
    let mut pa: PAState<u8, ()> = PAState::new();
    assert!(matches!(pa.handle_pa_context_state_change(ContextState::Failed), ContextAction::ReportFailed));
    assert!(matches!(pa.handle_pa_context_state_change(ContextState::Terminated), ContextAction::Terminated));
    assert!(matches!(pa.handle_pa_context_state_change(ContextState::Connecting), ContextAction::Nothing));
    assert!(matches!(pa.handle_pa_context_state_change(ContextState::Ready), ContextAction::Ready(_)));
    assert!(matches!(pa.handle_pa_context_state_change(ContextState::SettingName), ContextAction::Nothing));
    assert_eq!(pa.start_recording(Some("monitor".to_string()), 1, false, 1), Some((1, Some("monitor".to_string()), false)));
    assert!(matches!(pa.handle_pa_context_state_change(ContextState::Unconnected), ContextAction::Nothing));
    assert_eq!(pa.start_recording(None, 1, false, 1), None);
}

#[test]
fn pa_events() {
    let mut pa: PAState<u8, &str> = PAState::new();
    pa.set_current_operation("op");
    match pa.handle_pa_event(PAEvent::OperationCompleted) {
        PAEventAction::OperationEnded(op) => assert_eq!(op, Some("op")),
        _ => panic!("operation not ended"),
    }
    assert!(matches!(pa.handle_pa_event(PAEvent::OperationCompleted), PAEventAction::OperationEnded(None)));
    assert!(matches!(pa.handle_pa_event(PAEvent::ContextStateChanged), PAEventAction::CheckContextState));
    assert!(matches!(pa.handle_pa_event(PAEvent::StreamManagerQuitReady), PAEventAction::DisconnectContext));
    let sink = PAEvent::SinkInfo { description: "d".to_string(), monitor_source: "m".to_string() };
    match pa.handle_pa_event(sink) {
        PAEventAction::PrintSinkInfo { description, monitor_source } => {
            assert_eq!(description, "d");
            assert_eq!(monitor_source, "m");
        }
        _ => panic!("sink info lost"),
    }
}

#[test]
fn sink_list_results() {
    let item = SinkListResult::Item { description: Some("d".to_string()), monitor_source_name: Some("m".to_string()) };
    assert!(matches!(sink_list_event(item), Some(PAEvent::SinkInfo { .. })));
    let partial = SinkListResult::Item { description: None, monitor_source_name: Some("m".to_string()) };
    assert!(sink_list_event(partial).is_none());
    assert!(matches!(sink_list_event(SinkListResult::End), Some(PAEvent::OperationCompleted)));
    assert!(sink_list_event(SinkListResult::Error).is_none());
}

#[test]
fn audio_thread_events() {
    let mut pa: PAState<u8, ()> = PAState::new();
    let source = Some("monitor".to_string());
    let start = AudioServerEvent::AudioEvent(AudioEvent::StartRecording { send_handle: 5, sample_rate: 44100 });
    assert!(matches!(handle_audio_server_event(&mut pa, start, &source, false), AudioThreadStep::Nothing));
    pa.handle_pa_context_state_change(ContextState::Ready);
    let start = AudioServerEvent::AudioEvent(AudioEvent::StartRecording { send_handle: 6, sample_rate: 44100 });
    match handle_audio_server_event(&mut pa, start, &source, false) {
        AudioThreadStep::StartStream { send_handle, sample_rate, source_name, encode_opus } => {
            assert_eq!((send_handle, sample_rate, encode_opus), (6, 44100, false));
            assert_eq!(source_name, Some("monitor".to_string()));
        }
        _ => panic!("stream not started"),
    }
    let stop = AudioServerEvent::AudioEvent(AudioEvent::StopRecording);
    assert!(matches!(handle_audio_server_event(&mut pa, stop, &source, false), AudioThreadStep::Nothing));
    pa.record_stream_started();
    let stop = AudioServerEvent::AudioEvent(AudioEvent::StopRecording);
    assert!(matches!(handle_audio_server_event(&mut pa, stop, &source, false), AudioThreadStep::DisconnectStream));
    assert!(matches!(handle_audio_server_event(&mut pa, AudioServerEvent::RequestQuit, &source, false), AudioThreadStep::Quit(QuitAction::DisconnectStream)));
    assert!(matches!(handle_audio_server_event(&mut pa, AudioServerEvent::PAQuitReady, &source, false), AudioThreadStep::ExitLoop));
    let ev = AudioServerEvent::PAEvent(PAEvent::RecordingStreamEvent(PARecordingStreamEvent::StateChange));
    assert!(matches!(handle_audio_server_event(&mut pa, ev, &source, false), AudioThreadStep::PA(PAEventAction::Stream(RecordingEventAction::CheckState))));
}
