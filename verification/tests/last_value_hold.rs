use predictor::{predict_static, ForecastStrategy, PredictError};

#[test]
fn test_predict_static_valid_input() {
    let data: Vec<f64> = vec![1.0, 2.0, 3.0, 4.0, 5.0];
    let horizon: usize = 3;
    let result = predict_static(data, horizon);

    assert!(result.is_ok());
    let predictions = result.unwrap();
    assert_eq!(predictions.len(), 3);
    assert_eq!(predictions, vec![5.0, 5.0, 5.0]);
}

#[test]
fn test_predict_static_single_value() {
    let data: Vec<f64> = vec![42.0];
    let horizon: usize = 5;
    let result = predict_static(data, horizon);

    assert!(result.is_ok());
    let predictions = result.unwrap();
    assert_eq!(predictions.len(), 5);
    assert_eq!(predictions, vec![42.0, 42.0, 42.0, 42.0, 42.0]);
}

#[test]
fn test_predict_static_empty_data() {
    let data: Vec<f64> = vec![];
    let horizon: usize = 3;
    let result = predict_static(data, horizon);

    assert!(result.is_err());
    assert_eq!(
        result.unwrap_err().message(ForecastStrategy::LastValueHold),
        "Input data cannot be empty"
    );
}

#[test]
fn test_predict_static_zero_horizon() {
    let data: Vec<f64> = vec![1.0, 2.0, 3.0];
    let horizon: usize = 0;
    let result = predict_static(data, horizon);

    assert!(result.is_err());
    assert_eq!(
        result.unwrap_err().message(ForecastStrategy::LastValueHold),
        "Horizon must be greater than 0"
    );
}

#[test]
fn test_predict_static_large_horizon() {
    let data: Vec<f64> = vec![10.0, 20.0, 30.0];
    let horizon: usize = 100;
    let result = predict_static(data, horizon);

    assert!(result.is_ok());
    let predictions = result.unwrap();
    assert_eq!(predictions.len(), 100);
    assert!(predictions.iter().all(|&x| x == 30.0));
}

#[test]
fn test_predict_static_empty_data_error_kind() {
    let data: Vec<f64> = vec![];
    let result = predict_static(data, 7);
    assert!(matches!(result.unwrap_err(), PredictError::EmptyInput));
}

#[test]
fn test_predict_static_zero_horizon_error_kind() {
    let data: Vec<f64> = vec![9.0];
    let result = predict_static(data, 0);
    assert!(matches!(result.unwrap_err(), PredictError::InvalidHorizon));
}

#[test]
fn test_predict_static_empty_checked_before_horizon() {
    let data: Vec<f64> = vec![];
    let horizon: usize = 0;
    let result = predict_static(data, horizon);
    assert!(matches!(result.unwrap_err(), PredictError::EmptyInput));
}

#[test]
fn test_predict_static_horizon_one() {
    let data: Vec<f64> = vec![1.5, -2.5];
    let result = predict_static(data, 1);
    assert_eq!(result.unwrap(), vec![-2.5]);
}

#[test]
fn test_predict_static_integer_observations() {
    let data: Vec<u32> = vec![3, 1, 4];
    let result = predict_static(data, 2);
    assert_eq!(result.unwrap(), vec![4, 4]);
}

#[test]
fn test_predict_static_repeat_invocation_same_result() {
    let data: Vec<f64> = vec![6.0, 7.0, 8.0];
    let first = predict_static(data.clone(), 4);
    let second = predict_static(data, 4);
    assert_eq!(first, second);
    assert_eq!(first.unwrap(), vec![8.0, 8.0, 8.0, 8.0]);
}
