use oml::algorithm::{Algorithm, DummyAlgorithm};
use oml::dispatch::{resolve_worker, run_step, Outcome, StepKind};
use oml::errors::{DispatchError, ModelError};
use oml::fixed::Fixed;
use oml::model::Model;

fn units(u: i64) -> Fixed {
    Fixed::from_units(u)
}

#[test]
fn test_inference_step() {
    let model = Model::with_parameters(vec![units(1), units(2), units(3)]);
    let algorithm = DummyAlgorithm;

    let result = algorithm.inference_step(&model, units(2));
    assert_eq!(result.unwrap(), units(12)); // 2*1 + 2*2 + 2*3
}

#[test]
fn test_training_step() {
    let model = Model::with_parameters(vec![units(1), units(2), units(3)]);
    let algorithm = DummyAlgorithm;
    let update_factor = Fixed::from_raw(1_100_000); // 1.1

    algorithm.training_step(&model, update_factor).unwrap();

    let params = model.read();
    let expected = vec![
        Fixed::from_raw(1_100_000),
        Fixed::from_raw(2_200_000),
        Fixed::from_raw(3_300_000),
    ];
    assert_eq!(params, expected);
}

#[test]
fn test_new() {
    let model = Model::new();
    let params = model.read();
    assert!(params.is_empty());
}

#[test]
fn test_new_from_parameters() {
    let model = Model::with_parameters(vec![units(1), units(2), units(3)]);
    let expected = vec![units(1), units(2), units(3)];
    let params = model.read();
    for (a, b) in params.iter().zip(expected.iter()) {
        assert_eq!(a, b);
    }
}

#[test]
fn test_inference_empty_model() {
    let model = Model::new();
    let algorithm = DummyAlgorithm;
    assert_eq!(algorithm.inference_step(&model, units(7)).unwrap(), Fixed::from_raw(0));
    assert_eq!(
        algorithm
            .inference_step(&model, Fixed::from_raw(-123_456))
            .unwrap(),
        Fixed::from_raw(0)
    );
}

#[test]
fn test_inference_does_not_change_parameters() {
    let model = Model::with_parameters(vec![units(4), units(-5), units(6)]);
    let algorithm = DummyAlgorithm;
    let before = model.read();
    for _ in 0..5 {
        algorithm.inference_step(&model, units(3)).unwrap();
    }
    assert_eq!(model.read(), before);
}

#[test]
fn test_training_commutes_in_either_order() {
    let a = units(3);
    let b = units(5);
    let algorithm = DummyAlgorithm;

    let first = Model::with_parameters(vec![units(2)]);
    algorithm.training_step(&first, a).unwrap();
    algorithm.training_step(&first, b).unwrap();

    let second = Model::with_parameters(vec![units(2)]);
    algorithm.training_step(&second, b).unwrap();
    algorithm.training_step(&second, a).unwrap();

    // 2 * 3 * 5 = 30, whichever update completed first.
    assert_eq!(first.read(), vec![units(30)]);
    assert_eq!(second.read(), vec![units(30)]);
}

#[test]
fn test_read_sees_whole_update() {
    let model = Model::with_parameters(vec![units(1), units(2), units(3)]);
    let algorithm = DummyAlgorithm;
    // Scaling by zero stamps every slot with the same sentinel, so a
    // snapshot mixing pre- and post-update elements would be detectable.
    algorithm.training_step(&model, units(0)).unwrap();
    let params = model.read();
    assert_eq!(params.len(), 3);
    for p in params.iter() {
        assert_eq!(*p, Fixed::from_raw(0));
    }
}

#[test]
fn test_training_overflow_reports_compute_error() {
    let model = Model::with_parameters(vec![units(1), Fixed::from_raw(i64::MAX)]);
    let algorithm = DummyAlgorithm;
    let err = algorithm.training_step(&model, units(2)).unwrap_err();
    assert!(matches!(err, ModelError::ComputeError(_)));
    // The failed update must not have touched any element.
    assert_eq!(model.read(), vec![units(1), Fixed::from_raw(i64::MAX)]);
}

#[test]
fn test_inference_overflow_reports_compute_error() {
    let model = Model::with_parameters(vec![Fixed::from_raw(i64::MAX), Fixed::from_raw(i64::MAX)]);
    let algorithm = DummyAlgorithm;
    let err = algorithm.inference_step(&model, units(1)).unwrap_err();
    assert!(matches!(err, ModelError::ComputeError(_)));
}

#[test]
fn test_times_truncates_toward_zero() {
    let half = Fixed::from_raw(500_000);
    assert_eq!(Fixed::from_raw(3).times(half).unwrap(), Fixed::from_raw(1));
    assert_eq!(Fixed::from_raw(-3).times(half).unwrap(), Fixed::from_raw(-1));
    assert_eq!(units(-2).times(units(3)).unwrap(), units(-6));
}

#[test]
fn test_run_step_selects_operation() {
    let model = Model::with_parameters(vec![units(1), units(2), units(3)]);
    let algorithm = DummyAlgorithm;

    let inferred = run_step(&algorithm, &model, units(2), StepKind::Infer).unwrap();
    assert_eq!(inferred, Outcome::Inferred(units(12)));

    let trained = run_step(&algorithm, &model, units(2), StepKind::Train).unwrap();
    assert_eq!(trained, Outcome::Trained);
    assert_eq!(model.read(), vec![units(2), units(4), units(6)]);
}

#[test]
fn test_failure_propagation() {
    // A worker that died before reporting is a WorkerFailure...
    let worker_fault = resolve_worker(None).unwrap_err();
    assert!(matches!(worker_fault, DispatchError::WorkerFailure(_)));

    // ...distinct from a failure the step reported itself.
    let step_error = ModelError::ComputeError("step rejected the input".to_owned());
    let resolved = resolve_worker(Some(Err(step_error))).unwrap_err();
    assert!(matches!(
        resolved,
        DispatchError::StepError(ModelError::ComputeError(_))
    ));

    let ok = resolve_worker(Some(Ok(Outcome::Trained)));
    assert_eq!(ok.unwrap(), Outcome::Trained);
}

#[test]
fn test_write_applies_custom_mutator() {
    let model = Model::with_parameters(vec![units(1), units(2)]);
    let res = model.write(|mut v: Vec<Fixed>| {
        for p in v.iter_mut() {
            *p = units(9);
        }
        (v, Ok(()))
    });
    assert!(res.is_ok());
    assert_eq!(model.read(), vec![units(9), units(9)]);
}

#[test]
fn test_error_messages() {
    let lock = ModelError::LockError("poisoned".to_owned());
    assert_eq!(lock.message(), "poisoned");
    let worker = DispatchError::WorkerFailure("gone".to_owned());
    assert_eq!(worker.message(), "gone");
    let step = DispatchError::StepError(ModelError::ComputeError("overflow".to_owned()));
    assert_eq!(step.message(), "overflow");
}
