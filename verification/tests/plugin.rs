use reaper_rs::action::{Action, CommandId, Section, SectionId};
use reaper_rs::audio_hook::AudioBlockCounter;
use reaper_rs::error::ReaperError;
use reaper_rs::guid::Guid;
use reaper_rs::integration_test::{step_number, AfterStep, NextStep, TestRun};
use reaper_rs::low_level::{plugin_entry_result, FunctionTable, PluginInfo, ReaProject, REAPER_PLUGIN_VERSION};
use reaper_rs::midi_device::{MidiInputDevice, MidiInputDeviceId, MidiOutputDevice, MidiOutputDeviceId};
use reaper_rs::reaper::{Reaper, ReaperSlot};
use reaper_rs::request::HostRequest;
use reaper_rs::task_queue::{DiagnosticSink, TaskQueue};

fn any_table() -> FunctionTable {
    FunctionTable::with_all_functions_loaded(&|_name: &'static str| -> isize { 1 })
}

#[test]
fn plugin_entry_answers() {
    assert_eq!(REAPER_PLUGIN_VERSION, 0x20E);
    assert_eq!(plugin_entry_result(None), 0);
    assert_eq!(plugin_entry_result(Some(PluginInfo { caller_version: 0x20E, has_get_func: true })), 1);
    assert_eq!(plugin_entry_result(Some(PluginInfo { caller_version: 0x20E, has_get_func: false })), 0);
    assert_eq!(plugin_entry_result(Some(PluginInfo { caller_version: 0x20D, has_get_func: true })), 0);
}

#[test]
fn audio_hook_reports_every_hundredth_block() {
    let mut counter = AudioBlockCounter::new();
    let mut reports = Vec::new();
    for _ in 0..250 {
        if let Some(block) = counter.call() {
            reports.push(block);
        }
    }
    assert_eq!(reports, vec![0, 100, 200]);
    assert_eq!(counter.counter, 250);
}

#[test]
fn test_run_walks_the_steps_in_order() {
    let mut run = TestRun::new(3);
    assert_eq!(run.execute_next_step(), NextStep::Run { index: 0 });
    assert_eq!(run.execute_next_step(), NextStep::Run { index: 1 });
    assert_eq!(run.execute_next_step(), NextStep::Run { index: 2 });
    assert_eq!(run.execute_next_step(), NextStep::Finished);
    assert_eq!(run.execute_next_step(), NextStep::Finished);
    assert_eq!(TestRun::new(0).execute_next_step(), NextStep::Finished);
    assert_eq!(step_number(0), 1);
    assert_eq!(TestRun::after_step(Ok(())), AfterStep::EnqueueNext);
    assert_eq!(TestRun::after_step(Err("boom".to_string())), AfterStep::Stop { message: "boom".to_string() });
}

#[test]
fn steps_are_chained_through_the_task_queue() {
    let mut run = TestRun::new(2);
    let mut queue: TaskQueue<NextStep> = TaskQueue::new();
    let mut sink = DiagnosticSink::new();
    let mut ran = Vec::new();
    queue.enqueue_asap(run.execute_next_step());
    for tick in 0..5u64 {
        for step in queue.drain(tick) {
            if let NextStep::Run { index } = step {
                ran.push((tick, index));
                let result = if index == 1 { Err("step 2 failed".to_string()) } else { Ok(()) };
                sink.record(result.clone());
                if TestRun::after_step(result) == AfterStep::EnqueueNext {
                    queue.enqueue_asap(run.execute_next_step());
                }
            }
        }
    }
    // One step per tick, and the failure is kept.
    assert_eq!(ran, vec![(0, 0), (1, 1)]);
    assert_eq!(sink.failures, vec!["step 2 failed".to_string()]);
}

#[test]
fn diagnostic_sink_keeps_failures_in_order() {
    let mut sink = DiagnosticSink::new();
    sink.record(Ok(()));
    sink.record(Err("a".to_string()));
    sink.record(Ok(()));
    sink.record(Err("b".to_string()));
    assert_eq!(sink.failures, vec!["a".to_string(), "b".to_string()]);
}

#[test]
fn actions_and_sections() {
    let reaper = Reaper::new(any_table(), ReaProject { address: 1 }, vec![]);
    let section = reaper.get_main_section();
    assert_eq!(section, Section::new(SectionId(0)));
    let action = section.get_action_by_command_id(CommandId(40001));
    assert_eq!(action.invoke_as_trigger(&reaper, None), Ok(HostRequest::InvokeCommand { command_id: 40001 }));
    let named = reaper.get_action_by_command_name("_SWS_ABOUT".to_string());
    assert_eq!(named, Action::CommandNameBased { command_name: "_SWS_ABOUT".to_string() });
    assert_eq!(named.invoke_as_trigger(&reaper, None), Err(ReaperError::Unavailable));
    let bare = Reaper::new(FunctionTable::empty(), ReaProject { address: 1 }, vec![]);
    assert_eq!(action.invoke_as_trigger(&bare, None), Err(ReaperError::MissingHostFunction));
}

#[test]
fn midi_devices_that_are_there() {
    let mut reaper = Reaper::new(any_table(), ReaProject { address: 1 }, vec![]);
    reaper.max_midi_inputs = 4;
    reaper.midi_inputs_present = vec![true, false, true];
    reaper.max_midi_outputs = 2;
    reaper.midi_outputs_present = vec![false, true, true];
    assert_eq!(
        reaper.get_midi_input_devices(),
        vec![MidiInputDevice::new(MidiInputDeviceId(0)), MidiInputDevice::new(MidiInputDeviceId(2))]
    );
    assert_eq!(reaper.get_midi_output_devices(), vec![MidiOutputDevice::new(MidiOutputDeviceId(1))]);
    assert!(reaper.get_midi_input_device_by_id(MidiInputDeviceId(2)).is_available(&reaper));
    assert!(!reaper.get_midi_input_device_by_id(MidiInputDeviceId(3)).is_available(&reaper));
    assert!(!reaper.get_midi_output_device_by_id(MidiOutputDeviceId(0)).is_available(&reaper));
}

#[test]
fn plain_getters() {
    let mut reaper = Reaper::new(any_table(), ReaProject { address: 1 }, vec![]);
    reaper.main_hwnd = 0xBEEF;
    reaper.version = "6.12/x64".to_string();
    assert_eq!(reaper.get_main_window(), 0xBEEF);
    assert_eq!(reaper.get_version(), "6.12/x64");
    assert_eq!(reaper.generate_guid(42), Guid::new(42));
    assert_eq!(reaper.medium().addresses.len(), 16);
}

#[test]
fn observe_keeps_the_function_table() {
    let mut slot = ReaperSlot { instance: None };
    let seen = || {
        let mut seen = Reaper::new(FunctionTable::empty(), ReaProject { address: 2 }, vec![]);
        seen.main_hwnd = 7;
        seen
    };
    assert_eq!(Reaper::observe(&mut slot, seen()), Err(ReaperError::NotInitialized));
    assert!(slot.instance.is_none());
    Reaper::make_available_globally(&mut slot, Reaper::new(any_table(), ReaProject { address: 1 }, vec![]));
    assert_eq!(Reaper::observe(&mut slot, seen()), Ok(()));
    let reaper = Reaper::get(&slot).unwrap();
    assert_eq!(reaper.current_project, ReaProject { address: 2 });
    assert_eq!(reaper.main_hwnd, 7);
    assert_eq!(reaper.functions.addresses, vec![1isize; 16]);
}
