//! The fixed page of the control interface, served at the root path.

use vstd::prelude::*;
use vstd::string::StringExecFns;

verus! {

/// The text of the control page.
pub open spec fn index_page_text() -> Seq<char> {
    r#"<!DOCTYPE html>
<html>
<head>
    <meta charset="utf-8">
    <title>Researcher</title>
    <style>
        body { font-family: Arial; margin: 20px; background: #f5f5f5; min-height: 100vh; display: flex; flex-direction: column; }
        .content { flex: 1; }
        h1 { color: #333; }

        .status-message { padding: 10px; margin: 10px 0; border-radius: 0; display: none; }
        .status-message.success { background: #d4edda; color: #155724; border: 1px solid #c3e6cb; }
        .status-message.error { background: #f8d7da; color: #721c24; border: 1px solid #f5c6cb; }

        .search-bar { margin: 20px 0; }

        input[type="text"], input[type="number"], select { padding: 8px; margin: 5px 0; }

        button { padding: 8px 16px; background: rgb(100, 149, 237); color: white; border: none; cursor: pointer; margin-right: 5px; border-radius: 0; }
        button:hover { background: #5a8dd4; }
        button.danger { background: #dc3545; }
        button.danger:hover { background: #c82333; }
        button.validate { background: #28a745; font-size: 12px; padding: 4px 8px; }
        button.validate:hover { background: #218838; }

        .result { background: white; padding: 15px; margin: 10px 0; border: 1px solid #ddd; border-radius: 0; position: relative; }
        .result h3 { margin: 0 0 10px 0; }

        .result a { color: #007bff; text-decoration: none; }
        .result a:hover { text-decoration: underline; }

        .score { font-weight: bold; color: rgb(0, 150, 255); }
        .info { color: #666; font-size: 14px; }

        .doi-badge { background: #28a745; color: white; padding: 3px 8px; border-radius: 0; font-size: 12px; font-family: monospace; }

        .tabs { margin: 20px 0; border-bottom: 2px solid #ddd; }
        .tab { display: inline-block; padding: 10px 20px; cursor: pointer; background: #e9ecef; margin-right: 5px; border-radius: 0; }
        .tab.active { background: white; border: 1px solid #ddd; border-bottom: none; }

        .tab-content { display: none; }
        .tab-content.active { display: block; }

        .search-form { background: white; padding: 20px; max-width: 800px; border-radius: 0; }
        .search-form label { display: block; margin: 10px 0 5px 0; font-weight: bold; }

        .search-form input[type="text"],
        .search-form input[type="number"],
        .search-form select { width: 100%; box-sizing: border-box; }

        .search-form input[type="checkbox"] { margin-right: 5px; }

        .form-row { display: grid; grid-template-columns: 1fr 1fr; gap: 15px; }
        .form-row-with-button { display: grid; grid-template-columns: 1fr auto; gap: 10px; align-items: end; }

        .abstract { margin-top: 10px; padding: 10px; background: #f9f9f9; border-left: 3px solid #007bff; font-size: 14px; }

        footer { margin-top: 40px; padding: 20px; text-align: center; color: black; border-radius: 0; }
        footer a { color: #4db8ff; text-decoration: none; }
        footer a:hover { text-decoration: underline; }

        .loading { display: none; padding: 10px; background: #fff3cd; border: 1px solid #ffc107; border-radius: 0; margin: 10px 0; }
        .loading.active { display: block; }

        .log-container {
            background: #1e1e1e;
            color: #d4d4d4;
            padding: 15px;
            border-radius: 0;
            max-height: 500px;
            overflow-y: auto;
            font-family: 'Courier New', monospace;
            font-size: 13px;
            margin-top: 15px;
        }

        .log-entry { margin: 3px 0; }

        .validation-status { display: inline-block; padding: 2px 6px; border-radius: 0; font-size: 11px; margin-left: 10px; }
        .validation-status.success { background: #d4edda; color: #155724; }
        .validation-status.error { background: #f8d7da; color: #721c24; }
        .validation-status.checking { background: #fff3cd; color: #856404; }
    </style>
</head>
<body>
    <div class="content">
        <h1>Researcher</h1>

        <div id="status-message" class="status-message"></div>
        <div id="loading" class="loading">Searching and validating...</div>
        
        <div class="tabs">
            <div class="tab active" onclick="showTab(event, 'search')">Search</div>
            <div class="tab" onclick="showTab(event, 'results')">Results</div>
            <div class="tab" onclick="showTab(event, 'logs')">Logs</div>
        </div>
        
        <div id="search-tab" class="tab-content active">
            <div class="search-form">
                <h2>Configure Search</h2>
                
                <label>Subject:</label>
                <input type="text" id="subject" value="machine learning" placeholder="e.g. quantum computing">
                
                <div class="form-row-with-button">
                    <div>
                        <label>SearXNG Instance: <span id="searxng_status" class="validation-status"></span></label>
                        <input type="text" id="instance" value="https://searxng.site/">
                    </div>
                    <button class="validate" onclick="validateSearXNG()">Test Connection</button>
                </div>
                
                <div class="form-row">
                    <div>
                        <label>Max Results:</label>
                        <input type="number" id="max_results" value="50" min="1" max="200">
                    </div>
                    <div>
                        <label>Min Relevance Score:</label>
                        <input type="number" id="min_score" value="0.6" step="0.1" min="0" max="1">
                    </div>
                </div>
                
                <div class="form-row-with-button">
                    <div>
                        <label>Ollama URL: <span id="ollama_status" class="validation-status"></span></label>
                        <input type="text" id="ollama_url" value="http://localhost:11434">
                    </div>
                    <button class="validate" onclick="validateOllama()">Test Connection</button>
                </div>
                
                <div class="form-row">
                    <div>
                        <label>AI Model:</label>
                        <input type="text" id="model" value="llama3.2:latest" placeholder="e.g. llama3.2:latest">
                    </div>
                    <div>
                        <label>
                            <input type="checkbox" id="no_ai"> Disable AI validation
                        </label>
                    </div>
                </div>
                
                <div class="form-row">
                    <div>
                        <label>Time Range:</label>
                        <select id="time_range">
                            <option value="">All time</option>
                            <option value="day">Past day</option>
                            <option value="week">Past week</option>
                            <option value="month">Past month</option>
                            <option value="year">Past year</option>
                        </select>
                    </div>
                    <div>
                        <label>Category:</label>
                        <input type="text" id="category" value="science">
                    </div>
                </div>
                
                <label>Engines (comma-separated):</label>
                <input type="text" id="engines" value="arxiv,pubmed,google scholar,crossref,openairepublications,openairedatasets,semantic scholar">
                
                <br><br>
                <button onclick="startSearch()">Start Search</button>
            </div>
        </div>
        
        <div id="results-tab" class="tab-content">
            <div class="search-bar">
                <input type="text" id="search_term" placeholder="Search in results..." style="width: 400px;">
                <button onclick="searchResults()">Search</button>
                <button onclick="loadResults()">Show All</button>
                <button class="danger" onclick="clearAllResults()">Clear All Results</button>
            </div>
            <div id="results"></div>
        </div>
        
        <div id="logs-tab" class="tab-content">
            <h2>Technical Logs</h2>
            <button onclick="loadLogs()">Refresh Logs</button>
            <button class="danger" onclick="clearLogs()">Clear Display</button>
            <div class="log-container" id="log-container"></div>
        </div>
    </div>
    
    <footer>
        <p><a href="https://github.com/Researcher" target="_blank">GitHub Repo</a></p>
    </footer>
    
    <script>
        // I hate JS
        let logInterval;
        
        function showStatusMessage(message, isSuccess) {
            const element = document.getElementById('status-message');
            element.textContent = message;
            element.className = 'status-message ' + (isSuccess ? 'success' : 'error');
            element.style.display = 'block';
            
            setTimeout(() => {
                element.style.display = 'none';
            }, 5000);
        }
        
        function showTab(e, tabId) {
            document.querySelectorAll('.tab').forEach(t =>
                t.classList.remove('active')
            );
            document.querySelectorAll('.tab-content').forEach(c =>
                c.classList.remove('active')
            );

            e.target.classList.add('active');
            document.getElementById(tabId + '-tab').classList.add('active');

            if (tabId === 'logs') {
                startLogPolling();
            } else {
                stopLogPolling();
            }
        }

        
        function validateSearXNG() {
            const url = document.getElementById('instance').value;
            const status = document.getElementById('searxng_status');
            
            status.textContent = 'Checking..';
            status.className = 'validation-status checking';
            
            fetch('/validate', {
                method: 'POST',
                headers: { 'Content-Type': 'application/json' },
                body: JSON.stringify({ url: url, service_type: 'searxng' })
            })
            .then(r => r.json())
            .then(data => {
                if (data.status === 'ok') {
                    status.textContent = 'Connected!';
                    status.className = 'validation-status success';
                } else {
                    status.textContent = 'Error:' + data.message;
                    status.className = 'validation-status error';
                }
            })
            .catch(err => {
                status.textContent = 'Failed';
                status.className = 'validation-status error';
            });
        }
        
        function validateOllama() {
            const url = document.getElementById('ollama_url').value;
            const status = document.getElementById('ollama_status');
            
            status.textContent = 'Checking..';
            status.className = 'validation-status checking';
            
            fetch('/validate', {
                method: 'POST',
                headers: { 'Content-Type': 'application/json' },
                body: JSON.stringify({ url: url, service_type: 'ollama' })
            })
            .then(r => r.json())
            .then(data => {
                if (data.status === 'ok') {
                    status.textContent = 'Connected!';
                    status.className = 'validation-status success';
                    if (data.models && data.models.length > 0) {
                        showStatusMessage('Ollama connected! Available models: ' + data.models.join(', '), true);
                    }
                } else {
                    status.textContent = 'Error: ' + data.message;
                    status.className = 'validation-status error';
                }
            })
            .catch(err => {
                status.textContent = 'Failed';
                status.className = 'validation-status error';
            });
        }
        
        function startSearch() {
            const request = {
                subject: document.getElementById('subject').value,
                instance: document.getElementById('instance').value,
                max_results: parseInt(document.getElementById('max_results').value),
                model: document.getElementById('model').value,
                no_ai: document.getElementById('no_ai').checked,
                time_range: document.getElementById('time_range').value,
                category: document.getElementById('category').value,
                engines: document.getElementById('engines').value,
                min_score: parseFloat(document.getElementById('min_score').value),
                ollama_url: document.getElementById('ollama_url').value,
            };
            
            document.getElementById('loading').classList.add('active');
            
            fetch('/search', {
                method: 'POST',
                headers: { 'Content-Type': 'application/json' },
                body: JSON.stringify(request)
            })
            .then(r => r.json())
            .then(data => {
                showStatusMessage(data.message + ' Check the Logs tab for progress.', data.status === 'ok');
                
                setTimeout(() => {
                    document.getElementById('loading').classList.remove('active');
                }, 3000);
                
                setTimeout(() => {
                    document.querySelectorAll('.tab')[2].click();
                }, 1000);
            })
            .catch(err => {
                showStatusMessage('Something went wrong: ' + err, false);
                document.getElementById('loading').classList.remove('active');
            });
        }
        
        function startLogPolling() {
            loadLogs();
            logInterval = setInterval(loadLogs, 2000);
        }
        
        function stopLogPolling() {
            if (logInterval) {
                clearInterval(logInterval);
            }
        }
        
        function loadLogs() {
            fetch('/logs')
                .then(r => r.json())
                .then(logs => {
                    const container = document.getElementById('log-container');
                    const wasScrolledToBottom = container.scrollHeight - container.scrollTop === container.clientHeight;
                    
                    container.innerHTML = '';
                    
                    if (logs.length === 0) {
                        container.innerHTML = '<div class="log-entry">No logs yet. Start a search to see activity.</div>';
                        return;
                    }
                    
                    logs.forEach(log => {
                        const div = document.createElement('div');
                        div.className = 'log-entry';
                        div.textContent = log;
                        container.appendChild(div);
                    });
                    
                    if (wasScrolledToBottom || container.scrollTop === 0) {
                        container.scrollTop = container.scrollHeight;
                    }
                });
        }
        
        function clearLogs() {
            document.getElementById('log-container').innerHTML = '<div class="log-entry">Logs cleared (display only, server logs still active)</div>';
        }
        
        function loadResults() {
            fetch('/results')
                .then(r => r.json())
                .then(data => {
                    const container = document.getElementById('results');
                    container.innerHTML = '';
                    
                    if (data.length === 0) {
                        container.innerHTML = '<p>No results found. Start a new search!</p>';
                        return;
                    }
                    
                    data.forEach(paper => {
                        const div = document.createElement('div');
                        div.className = 'result';
                        
                        const abstractPreview = paper.abstract_text.length > 300
                            ? paper.abstract_text.substring(0, 300) + '...'
                            : paper.abstract_text;
                        
                        div.innerHTML = `
                            <h3><a href="${paper.url}" target="_blank">${paper.title}</a></h3>
                            <div class="info">
                                <span class="doi-badge">${paper.doi}</span>
                                <span class="score">Score: ${paper.score.toFixed(2)}/1.0</span>
                                <span style="float: right;">${paper.timestamp}</span>
                            </div>
                            <div class="abstract">${abstractPreview}</div>
                        `;
                        
                        container.appendChild(div);
                    });
                });
        }

    function searchResults() {
        const searchTerm = document.getElementById('search_term').value;
        fetch('/results?q=' + encodeURIComponent(searchTerm))
            .then(r => r.json())
            .then(data => {
                const container = document.getElementById('results');
                container.innerHTML = '';

                if (data.length === 0) {
                    container.innerHTML = '<p>No results found for this search, maybe check the SearXNG Instance settings.</p>';
                    return;
                }

                data.forEach(paper => {
                    const div = document.createElement('div');
                    div.className = 'result';

                    const abstractPreview = paper.abstract_text.length > 300 
                        ? paper.abstract_text.substring(0, 300) + '...'
                        : paper.abstract_text;

                    div.innerHTML = `
                        <h3><a href="${paper.url}" target="_blank">${paper.title}</a></h3>
                        <div class="info">
                            <span class="doi-badge">${paper.doi}</span>
                            <span class="score">Score: ${paper.score.toFixed(2)}/1.0</span>
                            <span style="float: right;">${paper.timestamp}</span>
                        </div>
                        <div class="abstract">${abstractPreview}</div>
                    `;

                    container.appendChild(div);
                });
            });
    }
    function clearAllResults() {
        if (!confirm('Are you sure you want to clear all results forever?')) {
            return;
        }
        
        fetch('/clear_results', {
            method: 'POST',
            headers: { 'Content-Type': 'application/json' }
        })
        .then(r => r.json())
        .then(data => {
            showStatusMessage(data.message, data.status === 'ok');
            if (data.status === 'ok') {
                loadResults();
            }
        })
        .catch(err => {
            showStatusMessage('Something went wrong: ' + err, false);
        });
    }
    
    loadResults();
</script>
</body>
</html>"#@
}

/// The control page, as one fixed document.
pub fn index_html() -> (r: String)
    ensures
        r@ == index_page_text(),
{
    String::from_str(r#"<!DOCTYPE html>
<html>
<head>
    <meta charset="utf-8">
    <title>Researcher</title>
    <style>
        body { font-family: Arial; margin: 20px; background: #f5f5f5; min-height: 100vh; display: flex; flex-direction: column; }
        .content { flex: 1; }
        h1 { color: #333; }

        .status-message { padding: 10px; margin: 10px 0; border-radius: 0; display: none; }
        .status-message.success { background: #d4edda; color: #155724; border: 1px solid #c3e6cb; }
        .status-message.error { background: #f8d7da; color: #721c24; border: 1px solid #f5c6cb; }

        .search-bar { margin: 20px 0; }

        input[type="text"], input[type="number"], select { padding: 8px; margin: 5px 0; }

        button { padding: 8px 16px; background: rgb(100, 149, 237); color: white; border: none; cursor: pointer; margin-right: 5px; border-radius: 0; }
        button:hover { background: #5a8dd4; }
        button.danger { background: #dc3545; }
        button.danger:hover { background: #c82333; }
        button.validate { background: #28a745; font-size: 12px; padding: 4px 8px; }
        button.validate:hover { background: #218838; }

        .result { background: white; padding: 15px; margin: 10px 0; border: 1px solid #ddd; border-radius: 0; position: relative; }
        .result h3 { margin: 0 0 10px 0; }

        .result a { color: #007bff; text-decoration: none; }
        .result a:hover { text-decoration: underline; }

        .score { font-weight: bold; color: rgb(0, 150, 255); }
        .info { color: #666; font-size: 14px; }

        .doi-badge { background: #28a745; color: white; padding: 3px 8px; border-radius: 0; font-size: 12px; font-family: monospace; }

        .tabs { margin: 20px 0; border-bottom: 2px solid #ddd; }
        .tab { display: inline-block; padding: 10px 20px; cursor: pointer; background: #e9ecef; margin-right: 5px; border-radius: 0; }
        .tab.active { background: white; border: 1px solid #ddd; border-bottom: none; }

        .tab-content { display: none; }
        .tab-content.active { display: block; }

        .search-form { background: white; padding: 20px; max-width: 800px; border-radius: 0; }
        .search-form label { display: block; margin: 10px 0 5px 0; font-weight: bold; }

        .search-form input[type="text"],
        .search-form input[type="number"],
        .search-form select { width: 100%; box-sizing: border-box; }

        .search-form input[type="checkbox"] { margin-right: 5px; }

        .form-row { display: grid; grid-template-columns: 1fr 1fr; gap: 15px; }
        .form-row-with-button { display: grid; grid-template-columns: 1fr auto; gap: 10px; align-items: end; }

        .abstract { margin-top: 10px; padding: 10px; background: #f9f9f9; border-left: 3px solid #007bff; font-size: 14px; }

        footer { margin-top: 40px; padding: 20px; text-align: center; color: black; border-radius: 0; }
        footer a { color: #4db8ff; text-decoration: none; }
        footer a:hover { text-decoration: underline; }

        .loading { display: none; padding: 10px; background: #fff3cd; border: 1px solid #ffc107; border-radius: 0; margin: 10px 0; }
        .loading.active { display: block; }

        .log-container {
            background: #1e1e1e;
            color: #d4d4d4;
            padding: 15px;
            border-radius: 0;
            max-height: 500px;
            overflow-y: auto;
            font-family: 'Courier New', monospace;
            font-size: 13px;
            margin-top: 15px;
        }

        .log-entry { margin: 3px 0; }

        .validation-status { display: inline-block; padding: 2px 6px; border-radius: 0; font-size: 11px; margin-left: 10px; }
        .validation-status.success { background: #d4edda; color: #155724; }
        .validation-status.error { background: #f8d7da; color: #721c24; }
        .validation-status.checking { background: #fff3cd; color: #856404; }
    </style>
</head>
<body>
    <div class="content">
        <h1>Researcher</h1>

        <div id="status-message" class="status-message"></div>
        <div id="loading" class="loading">Searching and validating...</div>
        
        <div class="tabs">
            <div class="tab active" onclick="showTab(event, 'search')">Search</div>
            <div class="tab" onclick="showTab(event, 'results')">Results</div>
            <div class="tab" onclick="showTab(event, 'logs')">Logs</div>
        </div>
        
        <div id="search-tab" class="tab-content active">
            <div class="search-form">
                <h2>Configure Search</h2>
                
                <label>Subject:</label>
                <input type="text" id="subject" value="machine learning" placeholder="e.g. quantum computing">
                
                <div class="form-row-with-button">
                    <div>
                        <label>SearXNG Instance: <span id="searxng_status" class="validation-status"></span></label>
                        <input type="text" id="instance" value="https://searxng.site/">
                    </div>
                    <button class="validate" onclick="validateSearXNG()">Test Connection</button>
                </div>
                
                <div class="form-row">
                    <div>
                        <label>Max Results:</label>
                        <input type="number" id="max_results" value="50" min="1" max="200">
                    </div>
                    <div>
                        <label>Min Relevance Score:</label>
                        <input type="number" id="min_score" value="0.6" step="0.1" min="0" max="1">
                    </div>
                </div>
                
                <div class="form-row-with-button">
                    <div>
                        <label>Ollama URL: <span id="ollama_status" class="validation-status"></span></label>
                        <input type="text" id="ollama_url" value="http://localhost:11434">
                    </div>
                    <button class="validate" onclick="validateOllama()">Test Connection</button>
                </div>
                
                <div class="form-row">
                    <div>
                        <label>AI Model:</label>
                        <input type="text" id="model" value="llama3.2:latest" placeholder="e.g. llama3.2:latest">
                    </div>
                    <div>
                        <label>
                            <input type="checkbox" id="no_ai"> Disable AI validation
                        </label>
                    </div>
                </div>
                
                <div class="form-row">
                    <div>
                        <label>Time Range:</label>
                        <select id="time_range">
                            <option value="">All time</option>
                            <option value="day">Past day</option>
                            <option value="week">Past week</option>
                            <option value="month">Past month</option>
                            <option value="year">Past year</option>
                        </select>
                    </div>
                    <div>
                        <label>Category:</label>
                        <input type="text" id="category" value="science">
                    </div>
                </div>
                
                <label>Engines (comma-separated):</label>
                <input type="text" id="engines" value="arxiv,pubmed,google scholar,crossref,openairepublications,openairedatasets,semantic scholar">
                
                <br><br>
                <button onclick="startSearch()">Start Search</button>
            </div>
        </div>
        
        <div id="results-tab" class="tab-content">
            <div class="search-bar">
                <input type="text" id="search_term" placeholder="Search in results..." style="width: 400px;">
                <button onclick="searchResults()">Search</button>
                <button onclick="loadResults()">Show All</button>
                <button class="danger" onclick="clearAllResults()">Clear All Results</button>
            </div>
            <div id="results"></div>
        </div>
        
        <div id="logs-tab" class="tab-content">
            <h2>Technical Logs</h2>
            <button onclick="loadLogs()">Refresh Logs</button>
            <button class="danger" onclick="clearLogs()">Clear Display</button>
            <div class="log-container" id="log-container"></div>
        </div>
    </div>
    
    <footer>
        <p><a href="https://github.com/Researcher" target="_blank">GitHub Repo</a></p>
    </footer>
    
    <script>
        // I hate JS
        let logInterval;
        
        function showStatusMessage(message, isSuccess) {
            const element = document.getElementById('status-message');
            element.textContent = message;
            element.className = 'status-message ' + (isSuccess ? 'success' : 'error');
            element.style.display = 'block';
            
            setTimeout(() => {
                element.style.display = 'none';
            }, 5000);
        }
        
        function showTab(e, tabId) {
            document.querySelectorAll('.tab').forEach(t =>
                t.classList.remove('active')
            );
            document.querySelectorAll('.tab-content').forEach(c =>
                c.classList.remove('active')
            );

            e.target.classList.add('active');
            document.getElementById(tabId + '-tab').classList.add('active');

            if (tabId === 'logs') {
                startLogPolling();
            } else {
                stopLogPolling();
            }
        }

        
        function validateSearXNG() {
            const url = document.getElementById('instance').value;
            const status = document.getElementById('searxng_status');
            
            status.textContent = 'Checking..';
            status.className = 'validation-status checking';
            
            fetch('/validate', {
                method: 'POST',
                headers: { 'Content-Type': 'application/json' },
                body: JSON.stringify({ url: url, service_type: 'searxng' })
            })
            .then(r => r.json())
            .then(data => {
                if (data.status === 'ok') {
                    status.textContent = 'Connected!';
                    status.className = 'validation-status success';
                } else {
                    status.textContent = 'Error:' + data.message;
                    status.className = 'validation-status error';
                }
            })
            .catch(err => {
                status.textContent = 'Failed';
                status.className = 'validation-status error';
            });
        }
        
        function validateOllama() {
            const url = document.getElementById('ollama_url').value;
            const status = document.getElementById('ollama_status');
            
            status.textContent = 'Checking..';
            status.className = 'validation-status checking';
            
            fetch('/validate', {
                method: 'POST',
                headers: { 'Content-Type': 'application/json' },
                body: JSON.stringify({ url: url, service_type: 'ollama' })
            })
            .then(r => r.json())
            .then(data => {
                if (data.status === 'ok') {
                    status.textContent = 'Connected!';
                    status.className = 'validation-status success';
                    if (data.models && data.models.length > 0) {
                        showStatusMessage('Ollama connected! Available models: ' + data.models.join(', '), true);
                    }
                } else {
                    status.textContent = 'Error: ' + data.message;
                    status.className = 'validation-status error';
                }
            })
            .catch(err => {
                status.textContent = 'Failed';
                status.className = 'validation-status error';
            });
        }
        
        function startSearch() {
            const request = {
                subject: document.getElementById('subject').value,
                instance: document.getElementById('instance').value,
                max_results: parseInt(document.getElementById('max_results').value),
                model: document.getElementById('model').value,
                no_ai: document.getElementById('no_ai').checked,
                time_range: document.getElementById('time_range').value,
                category: document.getElementById('category').value,
                engines: document.getElementById('engines').value,
                min_score: parseFloat(document.getElementById('min_score').value),
                ollama_url: document.getElementById('ollama_url').value,
            };
            
            document.getElementById('loading').classList.add('active');
            
            fetch('/search', {
                method: 'POST',
                headers: { 'Content-Type': 'application/json' },
                body: JSON.stringify(request)
            })
            .then(r => r.json())
            .then(data => {
                showStatusMessage(data.message + ' Check the Logs tab for progress.', data.status === 'ok');
                
                setTimeout(() => {
                    document.getElementById('loading').classList.remove('active');
                }, 3000);
                
                setTimeout(() => {
                    document.querySelectorAll('.tab')[2].click();
                }, 1000);
            })
            .catch(err => {
                showStatusMessage('Something went wrong: ' + err, false);
                document.getElementById('loading').classList.remove('active');
            });
        }
        
        function startLogPolling() {
            loadLogs();
            logInterval = setInterval(loadLogs, 2000);
        }
        
        function stopLogPolling() {
            if (logInterval) {
                clearInterval(logInterval);
            }
        }
        
        function loadLogs() {
            fetch('/logs')
                .then(r => r.json())
                .then(logs => {
                    const container = document.getElementById('log-container');
                    const wasScrolledToBottom = container.scrollHeight - container.scrollTop === container.clientHeight;
                    
                    container.innerHTML = '';
                    
                    if (logs.length === 0) {
                        container.innerHTML = '<div class="log-entry">No logs yet. Start a search to see activity.</div>';
                        return;
                    }
                    
                    logs.forEach(log => {
                        const div = document.createElement('div');
                        div.className = 'log-entry';
                        div.textContent = log;
                        container.appendChild(div);
                    });
                    
                    if (wasScrolledToBottom || container.scrollTop === 0) {
                        container.scrollTop = container.scrollHeight;
                    }
                });
        }
        
        function clearLogs() {
            document.getElementById('log-container').innerHTML = '<div class="log-entry">Logs cleared (display only, server logs still active)</div>';
        }
        
        function loadResults() {
            fetch('/results')
                .then(r => r.json())
                .then(data => {
                    const container = document.getElementById('results');
                    container.innerHTML = '';
                    
                    if (data.length === 0) {
                        container.innerHTML = '<p>No results found. Start a new search!</p>';
                        return;
                    }
                    
                    data.forEach(paper => {
                        const div = document.createElement('div');
                        div.className = 'result';
                        
                        const abstractPreview = paper.abstract_text.length > 300
                            ? paper.abstract_text.substring(0, 300) + '...'
                            : paper.abstract_text;
                        
                        div.innerHTML = `
                            <h3><a href="${paper.url}" target="_blank">${paper.title}</a></h3>
                            <div class="info">
                                <span class="doi-badge">${paper.doi}</span>
                                <span class="score">Score: ${paper.score.toFixed(2)}/1.0</span>
                                <span style="float: right;">${paper.timestamp}</span>
                            </div>
                            <div class="abstract">${abstractPreview}</div>
                        `;
                        
                        container.appendChild(div);
                    });
                });
        }

    function searchResults() {
        const searchTerm = document.getElementById('search_term').value;
        fetch('/results?q=' + encodeURIComponent(searchTerm))
            .then(r => r.json())
            .then(data => {
                const container = document.getElementById('results');
                container.innerHTML = '';

                if (data.length === 0) {
                    container.innerHTML = '<p>No results found for this search, maybe check the SearXNG Instance settings.</p>';
                    return;
                }

                data.forEach(paper => {
                    const div = document.createElement('div');
                    div.className = 'result';

                    const abstractPreview = paper.abstract_text.length > 300 
                        ? paper.abstract_text.substring(0, 300) + '...'
                        : paper.abstract_text;

                    div.innerHTML = `
                        <h3><a href="${paper.url}" target="_blank">${paper.title}</a></h3>
                        <div class="info">
                            <span class="doi-badge">${paper.doi}</span>
                            <span class="score">Score: ${paper.score.toFixed(2)}/1.0</span>
                            <span style="float: right;">${paper.timestamp}</span>
                        </div>
                        <div class="abstract">${abstractPreview}</div>
                    `;

                    container.appendChild(div);
                });
            });
    }
    function clearAllResults() {
        if (!confirm('Are you sure you want to clear all results forever?')) {
            return;
        }
        
        fetch('/clear_results', {
            method: 'POST',
            headers: { 'Content-Type': 'application/json' }
        })
        .then(r => r.json())
        .then(data => {
            showStatusMessage(data.message, data.status === 'ok');
            if (data.status === 'ok') {
                loadResults();
            }
        })
        .catch(err => {
            showStatusMessage('Something went wrong: ' + err, false);
        });
    }
    
    loadResults();
</script>
</body>
</html>"#)
}

} // verus!
